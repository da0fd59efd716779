use antinuke::embed::{mention_channel, mention_role, mention_user};
use antinuke::permission::{
    effective_permissions, has_permission, is_dangerous, ADMINISTRATOR, BAN_MEMBERS, DANGEROUS,
    KICK_MEMBERS, MANAGE_CHANNELS, MANAGE_GUILD, MANAGE_MESSAGES, MANAGE_ROLES, MANAGE_WEBHOOKS,
    SEND_MESSAGES, VIEW_CHANNEL,
};
use antinuke::table::Table;
use serenity::model::id::{ChannelId, RoleId, UserId};
use serenity::model::mention::Mentionable;
use serenity::model::permissions::Permissions;

#[test]
fn bits_are_those_of_the_gateway() {
    assert_eq!(KICK_MEMBERS, Permissions::KICK_MEMBERS.bits());
    assert_eq!(BAN_MEMBERS, Permissions::BAN_MEMBERS.bits());
    assert_eq!(ADMINISTRATOR, Permissions::ADMINISTRATOR.bits());
    assert_eq!(MANAGE_CHANNELS, Permissions::MANAGE_CHANNELS.bits());
    assert_eq!(MANAGE_GUILD, Permissions::MANAGE_GUILD.bits());
    assert_eq!(VIEW_CHANNEL, Permissions::VIEW_CHANNEL.bits());
    assert_eq!(SEND_MESSAGES, Permissions::SEND_MESSAGES.bits());
    assert_eq!(MANAGE_MESSAGES, Permissions::MANAGE_MESSAGES.bits());
    assert_eq!(MANAGE_ROLES, Permissions::MANAGE_ROLES.bits());
    assert_eq!(MANAGE_WEBHOOKS, Permissions::MANAGE_WEBHOOKS.bits());
}

#[test]
fn dangerous_permissions() {
    let seven = [
        ADMINISTRATOR, MANAGE_GUILD, MANAGE_ROLES, MANAGE_CHANNELS, MANAGE_WEBHOOKS, BAN_MEMBERS,
        KICK_MEMBERS,
    ];
    let mut all = 0;
    for bit in seven {
        assert!(is_dangerous(bit));
        assert!(is_dangerous(bit | SEND_MESSAGES));
        all |= bit;
    }
    assert_eq!(all, DANGEROUS);
    assert!(!is_dangerous(0));
    assert!(!is_dangerous(!DANGEROUS));
    assert!(!is_dangerous(MANAGE_MESSAGES | VIEW_CHANNEL));
    assert!(has_permission(ADMINISTRATOR | SEND_MESSAGES, SEND_MESSAGES));
    assert!(!has_permission(SEND_MESSAGES, SEND_MESSAGES | VIEW_CHANNEL));
}

#[test]
fn members_may_what_their_roles_may() {
    let mut roles: Table<u64> = Table::new();
    roles.insert(1, VIEW_CHANNEL);
    roles.insert(10, SEND_MESSAGES);
    roles.insert(11, KICK_MEMBERS);
    assert_eq!(effective_permissions(&roles, 1, &vec![]), VIEW_CHANNEL);
    assert_eq!(effective_permissions(&roles, 1, &vec![10, 99]), VIEW_CHANNEL | SEND_MESSAGES);
    assert_eq!(effective_permissions(&roles, 2, &vec![10, 11]), SEND_MESSAGES | KICK_MEMBERS);
    assert_eq!(effective_permissions(&roles, 2, &vec![]), 0);
}

#[test]
fn mentions_are_those_of_the_gateway() {
    assert_eq!(mention_user(42), UserId(42).mention().to_string());
    assert_eq!(mention_role(42), RoleId(42).mention().to_string());
    assert_eq!(mention_channel(42), ChannelId(42).mention().to_string());
}
