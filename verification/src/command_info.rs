//! Commands that show something: the state of the bot, a guild, a picture, an address.
use rand::Rng;
use vstd::prelude::*;
use vstd::string::*;

use crate::command::{Person, Reply, Request};
use crate::config::ConfigView;
use crate::embed::{
    blank, channel_mention, code, code_text, mention_channel, mention_user, note, titled,
    user_mention, Embed, EmbedView, EMBED_COLOR, GREEN, ORANGE, RED,
};
use crate::json::{json_text, read_text};
use crate::number::{decimal, decimal_text};
use crate::pattern::{is_ipv4, opt_text, regex_matches, IPV4};
use crate::permission::{
    ADMINISTRATOR, BAN_MEMBERS, KICK_MEMBERS, MANAGE_MESSAGES, MANAGE_ROLES, SEND_MESSAGES,
    VIEW_CHANNEL,
};
use crate::snapshot::{
    premium_tier_num, tier_number, ChannelKind, Overwrite, OverwriteTarget, PremiumTier,
};
use crate::state::BotState;
use crate::tally::{counts, lengths, sum_counts, sum_lengths, total};
use crate::text::{contains, join_from, joined, lowercase, occurs, same, texts, to_lower, to_upper, uppercase};

verus! {

/// How a truth value is written.
pub open spec fn truth(b: bool) -> Seq<char> {
    if b {
        "true"@
    } else {
        "false"@
    }
}

fn truth_text(b: bool) -> (s: &'static str)
    ensures
        s@ == truth(b),
{
    if b {
        "true"
    } else {
        "false"
    }
}

/// Numbers in decimal notation.
pub open spec fn decimals(ids: Seq<u64>) -> Seq<Seq<char>> {
    ids.map_values(|id: u64| decimal(id as nat))
}

fn decimal_texts(ids: &Vec<u64>) -> (res: Vec<String>)
    ensures
        texts(res@) == decimals(ids@),
{
    let mut res: Vec<String> = Vec::new();
    let mut i: usize = 0;
    while i < ids.len()
        invariant
            i <= ids@.len(),
            texts(res@) =~= decimals(ids@).take(i as int),
        decreases ids@.len() - i,
    {
        let ghost before = res@;
        let text = decimal_text(ids[i] as u128);
        res.push(text);
        assert(texts(res@) =~= texts(before).push(text@));
        i = i + 1;
    }
    res
}

/// What the bot knows of the author of a command.
pub open spec fn debug_report(req: Request) -> Seq<char> {
    "```\n[DEBUG]\nUser: "@ + req.author.name@ + " ("@ + decimal(req.author.id as nat)
        + ")\nGuild: "@ + decimal(req.gid as nat) + "\nOwner ID: "@ + decimal(req.owner_id as nat)
        + "\nIs Owner: "@ + truth(req.by_owner()) + "\nIs Admin: "@ + truth(
        req.may(ADMINISTRATOR),
    ) + "\nManage Messages: "@ + truth(req.may(MANAGE_MESSAGES)) + "\nBan Members: "@ + truth(
        req.may(BAN_MEMBERS),
    ) + "\nKick Members: "@ + truth(req.may(KICK_MEMBERS)) + "\nManage Roles: "@ + truth(
        req.may(MANAGE_ROLES),
    ) + "\nRaw Perms bits: "@ + decimal(req.perms as nat) + "\nRoles: "@ + joined(
        decimals(req.roles@),
        ", "@,
    ) + "\n```"@
}

/// A member asks what the bot knows of it.
pub fn cmd_debug(req: &Request) -> (text: String)
    ensures
        text@ == debug_report(*req),
{
    let roles = decimal_texts(&req.roles);
    assert(texts(roles@).skip(0) =~= texts(roles@));
    "```\n[DEBUG]\nUser: ".to_string().concat(req.author.name.as_str()).concat(" (").concat(
        decimal_text(req.author.id as u128).as_str(),
    ).concat(")\nGuild: ").concat(decimal_text(req.gid as u128).as_str()).concat(
        "\nOwner ID: ",
    ).concat(decimal_text(req.owner_id as u128).as_str()).concat("\nIs Owner: ").concat(
        truth_text(req.is_owner()),
    ).concat("\nIs Admin: ").concat(truth_text(req.is_allowed(ADMINISTRATOR))).concat(
        "\nManage Messages: ",
    ).concat(truth_text(req.is_allowed(MANAGE_MESSAGES))).concat("\nBan Members: ").concat(
        truth_text(req.is_allowed(BAN_MEMBERS)),
    ).concat("\nKick Members: ").concat(truth_text(req.is_allowed(KICK_MEMBERS))).concat(
        "\nManage Roles: ",
    ).concat(truth_text(req.is_allowed(MANAGE_ROLES))).concat("\nRaw Perms bits: ").concat(
        decimal_text(req.perms as u128).as_str(),
    ).concat("\nRoles: ").concat(join_from(&roles, 0, ", ").as_str()).concat("\n```")
}

/// The log channel, before it is made.
#[derive(Debug, Clone, PartialEq, Eq)]
pub struct SetupPlan {
    pub name: String,
    pub topic: String,
    pub overwrites: Vec<Overwrite>,
}

/// Who may do what in the log channel: everyone else may not see it, the bot may write.
pub open spec fn log_overwrites(gid: u64, me: u64) -> Seq<Overwrite> {
    seq![
        Overwrite { allow: 0, deny: VIEW_CHANNEL, target: OverwriteTarget::Role(gid) },
        Overwrite {
            allow: VIEW_CHANNEL | SEND_MESSAGES,
            deny: 0,
            target: OverwriteTarget::Member(me),
        },
    ]
}

/// An administrator wants the log channel: how it is made, or what is posted instead. `existing`
/// is the log channel, if there is one, and `me` the bot, where it is known.
pub fn cmd_setup(req: &Request, existing: Option<u64>, me: Option<u64>) -> (res: Result<
    SetupPlan,
    Reply,
>)
    ensures
        match res {
            Ok(plan) => {
                &&& existing is None
                &&& me is Some
                &&& plan.name@ == "security-logs"@
                &&& plan.topic@ == "Coded by ransxmware.xyz — Automated security logs"@
                &&& plan.overwrites@ == log_overwrites(req.gid, me->0)
            },
            Err(reply) => match existing {
                Some(id) => reply.says(
                    note(
                        "Channel Already Exists"@,
                        "Already exists: "@ + channel_mention(id),
                        ORANGE,
                    ),
                ),
                None => me is None && reply.says(
                    note("❌ Error"@, "Could not fetch bot user."@, RED),
                ),
            },
        },
{
    if let Some(id) = existing {
        let text = "Already exists: ".to_string().concat(mention_channel(id).as_str());
        return Err(Reply::say(Embed::note("Channel Already Exists", text.as_str(), ORANGE)));
    }
    let bot = match me {
        Some(bot) => bot,
        None => {
            return Err(Reply::say(Embed::note("❌ Error", "Could not fetch bot user.", RED)));
        },
    };
    let mut overwrites: Vec<Overwrite> = Vec::new();
    overwrites.push(
        Overwrite { allow: 0, deny: VIEW_CHANNEL, target: OverwriteTarget::Role(req.gid) },
    );
    overwrites.push(
        Overwrite {
            allow: VIEW_CHANNEL | SEND_MESSAGES,
            deny: 0,
            target: OverwriteTarget::Member(bot),
        },
    );
    assert(overwrites@ =~= log_overwrites(req.gid, bot));
    Ok(
        SetupPlan {
            name: "security-logs".to_string(),
            topic: "Coded by ransxmware.xyz — Automated security logs".to_string(),
            overwrites,
        },
    )
}

/// What is posted when the log channel was made, or could not be.
pub fn setup_result(created: Option<u64>) -> (reply: Reply)
    ensures
        match created {
            Some(id) => reply.says(
                note(
                    "Setup Complete"@,
                    "Security logs channel created: "@ + channel_mention(id),
                    GREEN,
                ),
            ),
            None => reply.says(
                note("❌ Setup Failed"@, "An error occurred during setup."@, RED),
            ),
        },
{
    match created {
        Some(id) => {
            let text = "Security logs channel created: ".to_string().concat(
                mention_channel(id).as_str(),
            );
            Reply::say(Embed::note("Setup Complete", text.as_str(), GREEN))
        },
        None => Reply::say(
            Embed::note("❌ Setup Failed", "An error occurred during setup.", RED),
        ),
    }
}

/// What is posted about the settings of a guild. `punishment` is the name of the punishment in
/// upper case.
pub open spec fn config_view(
    enabled: bool,
    cfg: ConfigView,
    punishment: Seq<char>,
    log_channel: Option<u64>,
) -> EmbedView {
    titled("Security Configuration"@, EMBED_COLOR)
        .field(
            "Protection"@,
            if enabled {
                "✅ ENABLED"@
            } else {
                "🔴 DISABLED"@
            },
            false,
        )
        .field(
            "Logs Channel"@,
            match log_channel {
                Some(id) => channel_mention(id),
                None => "❌ Not Set"@,
            },
            true,
        )
        .field(
            "Anti-Nuke Settings"@,
            "Threshold: "@ + decimal(cfg.mass_ban_threshold as nat) + " actions\nWindow: "@
                + cfg.mass_ban_window.text + "s\nPunishment: "@ + punishment,
            false,
        )
        .field(
            "Security Limits"@,
            "Messages/min: "@ + decimal(cfg.max_messages_per_minute as nat)
                + "\nDuplicate limit: "@ + decimal(cfg.max_duplicate_messages as nat)
                + "\nMax emojis: "@ + decimal(cfg.max_emojis as nat) + "\nAuto-ban at: "@ + decimal(
                cfg.auto_ban_threshold as nat,
            ) + " violations"@,
            false,
        )
        .field("Allowed Domains"@, joined(cfg.link_whitelist, ", "@), false)
        .field("Banned Words"@, decimal(cfg.banned_words.len()) + " words filtered"@, true)
        .signed()
}

/// What is posted about what the bot remembers.
pub open spec fn stats_view(violations: nat, muted: nat, warnings: nat, enabled: bool) -> EmbedView {
    titled("Security Statistics"@, EMBED_COLOR)
        .field("Total Violations"@, decimal(violations), true)
        .field("Currently Muted"@, decimal(muted), true)
        .field("Total Warnings"@, decimal(warnings), true)
        .field(
            "Protection"@,
            if enabled {
                "✅ Active"@
            } else {
                "🔴 Inactive"@
            },
            true,
        )
        .signed()
}

impl BotState {
    /// An administrator asks for the settings of the guild. `log_channel` is the log channel, if
    /// there is one.
    pub fn cmd_config(&self, req: &Request, log_channel: Option<u64>) -> (reply: Reply)
        requires
            self.wf(),
        ensures
            reply.says(
                config_view(
                    self.protected(req.gid),
                    self.config(req.gid),
                    uppercase(self.config(req.gid).punishment.name()),
                    log_channel,
                ),
            ),
    {
        let cfg = self.guild_config(req.gid);
        let state = if self.is_protected(req.gid) {
            "✅ ENABLED"
        } else {
            "🔴 DISABLED"
        };
        let logs = match log_channel {
            Some(id) => mention_channel(id),
            None => "❌ Not Set".to_string(),
        };
        let settings = "Threshold: ".to_string().concat(
            decimal_text(cfg.mass_ban_threshold as u128).as_str(),
        ).concat(" actions\nWindow: ").concat(cfg.mass_ban_window.text.as_str()).concat(
            "s\nPunishment: ",
        ).concat(to_upper(cfg.punishment.as_str()).as_str());
        let limits = "Messages/min: ".to_string().concat(
            decimal_text(cfg.max_messages_per_minute as u128).as_str(),
        ).concat("\nDuplicate limit: ").concat(
            decimal_text(cfg.max_duplicate_messages as u128).as_str(),
        ).concat("\nMax emojis: ").concat(decimal_text(cfg.max_emojis as u128).as_str()).concat(
            "\nAuto-ban at: ",
        ).concat(decimal_text(cfg.auto_ban_threshold as u128).as_str()).concat(" violations");
        assert(texts(cfg.link_whitelist@).skip(0) =~= texts(cfg.link_whitelist@));
        let domains = join_from(&cfg.link_whitelist, 0, ", ");
        assert(texts(cfg.banned_words@).len() == cfg.banned_words@.len());
        let words = decimal_text(cfg.banned_words.len() as u128).concat(" words filtered");
        Reply::say(
            Embed::titled("Security Configuration", EMBED_COLOR)
                .field("Protection", state, false)
                .field("Logs Channel", logs.as_str(), true)
                .field("Anti-Nuke Settings", settings.as_str(), false)
                .field("Security Limits", limits.as_str(), false)
                .field("Allowed Domains", domains.as_str(), false)
                .field("Banned Words", words.as_str(), true)
                .signed(),
        )
    }

    /// A moderator asks what the bot remembers.
    pub fn cmd_stats(&self, req: &Request) -> (reply: Reply)
        requires
            self.wf(),
        ensures
            reply.says(
                stats_view(
                    total(counts(self.user_violations@)),
                    self.muted_users@.dom().len(),
                    total(lengths(self.user_warnings@)),
                    self.protected(req.gid),
                ),
            ),
    {
        let violations = sum_counts(&self.user_violations);
        let muted = self.muted_users.len();
        let warnings = sum_lengths(&self.user_warnings);
        let state = if self.is_protected(req.gid) {
            "✅ Active"
        } else {
            "🔴 Inactive"
        };
        Reply::say(
            Embed::titled("Security Statistics", EMBED_COLOR)
                .field("Total Violations", decimal_text(violations).as_str(), true)
                .field("Currently Muted", decimal_text(muted as u128).as_str(), true)
                .field("Total Warnings", decimal_text(warnings).as_str(), true)
                .field("Protection", state, true)
                .signed(),
        )
    }
}

/// A moderator wants an address looked up: the web address to ask, or what is posted instead.
pub fn lookup_address(req: &Request, valid: bool) -> (res: Result<String, Reply>)
    ensures
        match res {
            Ok(url) => req.args@.len() > 0 && valid && url@ == "http://ip-api.com/json/"@
                + req.args@[0]@,
            Err(reply) => if req.args@.len() == 0 {
                reply.says(note("❌ Missing IP"@, "Usage: `xiplookup <ip>`"@, RED))
            } else {
                !valid && reply.says(
                    note("❌ Invalid IP"@, "Please provide a valid IPv4 address."@, RED),
                )
            },
        },
{
    if req.args.len() == 0 {
        return Err(Reply::say(Embed::note("❌ Missing IP", "Usage: `xiplookup <ip>`", RED)));
    }
    if !valid {
        return Err(
            Reply::say(Embed::note("❌ Invalid IP", "Please provide a valid IPv4 address.", RED)),
        );
    }
    Ok("http://ip-api.com/json/".to_string().concat(req.args[0].as_str()))
}

/// The answer to a moderator that wants an address looked up: the web address to ask, where the
/// first word is an IPv4 address, or what is posted instead.
pub open spec fn lookup_answer(req: Request, res: Result<String, Reply>) -> bool {
    match res {
        Ok(url) => req.args@.len() > 0 && regex_matches(IPV4@, req.args@[0]@) && url@
            == "http://ip-api.com/json/"@ + req.args@[0]@,
        Err(reply) => if req.args@.len() == 0 {
            reply.says(note("❌ Missing IP"@, "Usage: `xiplookup <ip>`"@, RED))
        } else {
            !regex_matches(IPV4@, req.args@[0]@) && reply.says(
                note("❌ Invalid IP"@, "Please provide a valid IPv4 address."@, RED),
            )
        },
    }
}

/// A moderator wants an address looked up: the web address to ask, where the first word is an IPv4
/// address, or what is posted instead.
pub fn cmd_iplookup(req: &Request) -> (res: Result<String, Reply>)
    ensures
        lookup_answer(*req, res),
{
    let valid = if req.args.len() > 0 {
        is_ipv4(req.args[0].as_str())
    } else {
        false
    };
    lookup_address(req, valid)
}

/// What the web service says of an address, where it says it.
pub struct IpFacts {
    pub status: Option<String>,
    pub city: Option<String>,
    pub region: Option<String>,
    pub country: Option<String>,
    pub country_code: Option<String>,
    pub isp: Option<String>,
    pub network: Option<String>,
    pub timezone: Option<String>,
}

/// A text, or another where there is none.
pub open spec fn text_or(s: Option<Seq<char>>, other: Seq<char>) -> Seq<char> {
    match s {
        Some(t) => t,
        None => other,
    }
}

fn or_else(s: &Option<String>, other: &str) -> (res: String)
    ensures
        res@ == text_or(opt_text(*s), other@),
{
    match s {
        Some(t) => t.clone(),
        None => other.to_string(),
    }
}

/// What is posted about an address.
pub open spec fn ip_view(
    city: Option<Seq<char>>,
    region: Option<Seq<char>>,
    country: Option<Seq<char>>,
    country_code: Option<Seq<char>>,
    isp: Option<Seq<char>>,
    network: Option<Seq<char>>,
    coords: Seq<char>,
    timezone: Option<Seq<char>>,
) -> EmbedView {
    titled("[+] IP Address Lookup"@, 0x0099FFu32)
        .field("City"@, text_or(city, "Unknown"@), true)
        .field("Region"@, text_or(region, "Unknown"@), true)
        .field(
            "Country"@,
            text_or(country, "Unknown"@) + " ("@ + text_or(country_code, "N/A"@) + ")"@,
            true,
        )
        .field("ISP"@, text_or(isp, "Unknown"@), true)
        .field("AS"@, text_or(network, "Unknown"@), true)
        .field("Coords"@, coords, true)
        .field("TZ"@, text_or(timezone, "Unknown"@), true)
        .footer("IP Lookup Service"@)
}

/// What is posted about an address that could not be looked up.
pub open spec fn no_ip_view() -> EmbedView {
    note("❌ Lookup Failed"@, "Could not retrieve info for this IP."@, RED)
}

/// What is posted about an address, given what the web service says of it. `coords` are the
/// coordinates, as they are shown.
pub fn show_ip(facts: &IpFacts, coords: &str) -> (reply: Reply)
    ensures
        if opt_text(facts.status) == Some("success"@) {
            reply.says(
                ip_view(
                    opt_text(facts.city),
                    opt_text(facts.region),
                    opt_text(facts.country),
                    opt_text(facts.country_code),
                    opt_text(facts.isp),
                    opt_text(facts.network),
                    coords@,
                    opt_text(facts.timezone),
                ),
            )
        } else {
            reply.says(no_ip_view())
        },
{
    let found = match &facts.status {
        Some(status) => same(status.as_str(), "success"),
        None => false,
    };
    if !found {
        return Reply::say(
            Embed::note("❌ Lookup Failed", "Could not retrieve info for this IP.", RED),
        );
    }
    let country = or_else(&facts.country, "Unknown").concat(" (").concat(
        or_else(&facts.country_code, "N/A").as_str(),
    ).concat(")");
    Reply::say(
        Embed::titled("[+] IP Address Lookup", 0x0099FF)
            .field("City", or_else(&facts.city, "Unknown").as_str(), true)
            .field("Region", or_else(&facts.region, "Unknown").as_str(), true)
            .field("Country", country.as_str(), true)
            .field("ISP", or_else(&facts.isp, "Unknown").as_str(), true)
            .field("AS", or_else(&facts.network, "Unknown").as_str(), true)
            .field("Coords", coords, true)
            .field("TZ", or_else(&facts.timezone, "Unknown").as_str(), true)
            .footer("IP Lookup Service"),
    )
}

/// What is posted about an address, given the answer of the web service.
pub fn ip_report(body: &str, coords: &str) -> (reply: Reply)
    ensures
        if json_text(body@, "status"@) == Some("success"@) {
            reply.says(
                ip_view(
                    json_text(body@, "city"@),
                    json_text(body@, "regionName"@),
                    json_text(body@, "country"@),
                    json_text(body@, "countryCode"@),
                    json_text(body@, "isp"@),
                    json_text(body@, "as"@),
                    coords@,
                    json_text(body@, "timezone"@),
                ),
            )
        } else {
            reply.says(no_ip_view())
        },
{
    let facts = IpFacts {
        status: read_text(body, "status"),
        city: read_text(body, "city"),
        region: read_text(body, "regionName"),
        country: read_text(body, "country"),
        country_code: read_text(body, "countryCode"),
        isp: read_text(body, "isp"),
        network: read_text(body, "as"),
        timezone: read_text(body, "timezone"),
    };
    show_ip(&facts, coords)
}

/// What is posted when the web service does not answer.
pub fn ip_unavailable() -> (reply: Reply)
    ensures
        reply.says(note("❌ Service Unavailable"@, "IP lookup service unavailable."@, RED)),
{
    Reply::say(Embed::note("❌ Service Unavailable", "IP lookup service unavailable.", RED))
}

/// Numbers that were drawn for a made-up address.
#[derive(Debug, Clone, Copy, PartialEq, Eq, Structural)]
pub struct Draws {
    pub range: usize,
    pub third: u8,
    pub fourth: u8,
    pub city: usize,
    pub province: usize,
    pub isp: usize,
}

/// `Rng::gen` of the thread's generator, for several numbers at once. Nothing is said of them.
#[verifier::external_body]
pub(crate) fn draw_numbers() -> (draws: Draws)
{
    let (range, third, fourth, city, province, isp) = rand::thread_rng().gen();
    Draws { range, third, fourth, city, province, isp }
}

/// The first halves of made-up addresses.
pub open spec fn ranges() -> Seq<Seq<char>> {
    seq![
        "202.90"@,
        "203.177"@,
        "210.213"@,
        "218.108"@,
        "124.105"@,
        "112.198"@,
        "180.190"@,
    ]
}

/// Cities of made-up addresses.
pub open spec fn cities() -> Seq<Seq<char>> {
    seq![
        "Manila"@,
        "Quezon City"@,
        "Makati"@,
        "Cebu City"@,
        "Davao City"@,
        "Taguig"@,
        "Pasig"@,
    ]
}

/// Provinces of made-up addresses.
pub open spec fn provinces() -> Seq<Seq<char>> {
    seq!["Metro Manila"@, "Cebu"@, "Davao del Sur"@, "Cavite"@, "Rizal"@]
}

/// Providers of made-up addresses.
pub open spec fn providers() -> Seq<Seq<char>> {
    seq![
        "PLDT Inc."@,
        "Globe Telecom"@,
        "Smart Communications"@,
        "Sky Broadband"@,
        "Converge ICT"@,
    ]
}

/// The entry of a list that a number picks.
pub open spec fn picked(list: Seq<Seq<char>>, n: usize) -> Seq<char> {
    list[n as int % list.len() as int]
}

fn pick_range(n: usize) -> (s: &'static str)
    ensures
        s@ == picked(ranges(), n),
{
    match n % 7 {
        0 => "202.90",
        1 => "203.177",
        2 => "210.213",
        3 => "218.108",
        4 => "124.105",
        5 => "112.198",
        _ => "180.190",
    }
}

fn pick_city(n: usize) -> (s: &'static str)
    ensures
        s@ == picked(cities(), n),
{
    match n % 7 {
        0 => "Manila",
        1 => "Quezon City",
        2 => "Makati",
        3 => "Cebu City",
        4 => "Davao City",
        5 => "Taguig",
        _ => "Pasig",
    }
}

fn pick_province(n: usize) -> (s: &'static str)
    ensures
        s@ == picked(provinces(), n),
{
    match n % 5 {
        0 => "Metro Manila",
        1 => "Cebu",
        2 => "Davao del Sur",
        3 => "Cavite",
        _ => "Rizal",
    }
}

fn pick_provider(n: usize) -> (s: &'static str)
    ensures
        s@ == picked(providers(), n),
{
    match n % 5 {
        0 => "PLDT Inc.",
        1 => "Globe Telecom",
        2 => "Smart Communications",
        3 => "Sky Broadband",
        _ => "Converge ICT",
    }
}

/// A made-up address.
pub open spec fn fake_ip(draws: Draws) -> Seq<char> {
    picked(ranges(), draws.range) + "."@ + decimal(draws.third as nat) + "."@ + decimal(
        draws.fourth as nat,
    )
}

/// The joke that is posted first: a made-up address of a user.
pub open spec fn grab_view(target: Person, draws: Draws, coords: Seq<char>) -> EmbedView {
    note("IP GRAB"@, "**@GRABBED: "@ + target.name@ + "**"@, RED)
        .field("IP"@, code(fake_ip(draws)), true)
        .field("Status"@, "**CONFIRMED**"@, true)
        .field("City"@, picked(cities(), draws.city), true)
        .field("Province"@, picked(provinces(), draws.province), true)
        .field("ISP"@, picked(providers(), draws.isp), true)
        .field("Country"@, "Philippines"@, true)
        .field("Coords"@, coords, true)
        .thumbnail(target.avatar@)
        .signed()
}

/// The joke that is posted first, for numbers that were drawn. `coords` are made-up coordinates, as
/// they are shown.
pub fn grab(target: &Person, draws: Draws, coords: &str) -> (e: Embed)
    ensures
        e@ == grab_view(*target, draws, coords@),
{
    let ip = pick_range(draws.range).to_string().concat(".").concat(
        decimal_text(draws.third as u128).as_str(),
    ).concat(".").concat(decimal_text(draws.fourth as u128).as_str());
    let text = "**@GRABBED: ".to_string().concat(target.name.as_str()).concat("**");
    Embed::note("IP GRAB", text.as_str(), RED)
        .field("IP", code_text(ip.as_str()).as_str(), true)
        .field("Status", "**CONFIRMED**", true)
        .field("City", pick_city(draws.city), true)
        .field("Province", pick_province(draws.province), true)
        .field("ISP", pick_provider(draws.isp), true)
        .field("Country", "Philippines", true)
        .field("Coords", coords, true)
        .thumbnail(target.avatar.as_str())
        .signed()
}

/// The joke that is posted first: some made-up address.
pub fn cmd_ipgrab(target: &Person, coords: &str) -> (e: Embed)
    ensures
        exists|draws: Draws| e@ == #[trigger] grab_view(*target, draws, coords@),
{
    grab(target, draw_numbers(), coords)
}

/// How the joke is dissolved.
pub fn grab_reveal(target: u64) -> (e: Embed)
    ensures
        e@ == note(
            "😂 Got You!"@,
            "Relax "@ + user_mention(target)
                + ", that was **100% FAKE**!\nNo actual IP was captured. Discord does not expose user IPs."@,
            GREEN,
        ).footer("Stay safe online 💚"@),
{
    let text = "Relax ".to_string().concat(mention_user(target).as_str()).concat(
        ", that was **100% FAKE**!\nNo actual IP was captured. Discord does not expose user IPs.",
    );
    Embed::note("😂 Got You!", text.as_str(), GREEN).footer("Stay safe online 💚")
}

/// How the bot appears to others.
#[derive(Debug, Clone, Copy, PartialEq, Eq, Structural)]
pub enum Presence {
    Online,
    DoNotDisturb,
    Invisible,
}

impl Presence {
    /// The appearance with a name in lower case.
    pub open spec fn named(s: Seq<char>) -> Option<Presence> {
        if s == "online"@ {
            Some(Presence::Online)
        } else if s == "dnd"@ {
            Some(Presence::DoNotDisturb)
        } else if s == "invisible"@ {
            Some(Presence::Invisible)
        } else {
            None
        }
    }
}

/// What is posted when the bot changes its appearance. `upper` is the name in upper case.
pub open spec fn presence_view(upper: Seq<char>) -> EmbedView {
    note("Status Updated"@, "Bot status changed to **"@ + upper + "**"@, GREEN)
}

/// The appearance with this name in lower case, and what is posted.
pub fn set_presence(word: Option<String>) -> (res: (Option<Presence>, Reply))
    ensures
        match word {
            None => res.0 is None && res.1.says(
                note("❌ Missing Status"@, "Usage: `xstatus <online/dnd/invisible>`"@, RED),
            ),
            Some(name) => {
                &&& res.0 == Presence::named(name@)
                &&& if res.0 is Some {
                    res.1.says(presence_view(uppercase(name@)))
                } else {
                    res.1.says(
                        note("❌ Invalid Status"@, "Valid: `online`, `dnd`, `invisible`"@, RED),
                    )
                }
            },
        },
{
    let name = match word {
        Some(name) => name,
        None => {
            return (
                None,
                Reply::say(
                    Embed::note(
                        "❌ Missing Status",
                        "Usage: `xstatus <online/dnd/invisible>`",
                        RED,
                    ),
                ),
            );
        },
    };
    let presence = if same(name.as_str(), "online") {
        Presence::Online
    } else if same(name.as_str(), "dnd") {
        Presence::DoNotDisturb
    } else if same(name.as_str(), "invisible") {
        Presence::Invisible
    } else {
        return (
            None,
            Reply::say(
                Embed::note("❌ Invalid Status", "Valid: `online`, `dnd`, `invisible`", RED),
            ),
        );
    };
    let text = "Bot status changed to **".to_string().concat(
        to_upper(name.as_str()).as_str(),
    ).concat("**");
    (Some(presence), Reply::say(Embed::note("Status Updated", text.as_str(), GREEN)))
}

/// The first word of a command in lower case, if it has one.
pub open spec fn first_word(args: Seq<Seq<char>>) -> Option<Seq<char>> {
    if args.len() > 0 {
        Some(lowercase(args[0]))
    } else {
        None
    }
}

/// The answer to an administrator that wants the bot to appear in another way.
pub open spec fn status_answer(req: Request, res: (Option<Presence>, Reply)) -> bool {
    match first_word(texts(req.args@)) {
        None => res.0 is None && res.1.says(
            note("❌ Missing Status"@, "Usage: `xstatus <online/dnd/invisible>`"@, RED),
        ),
        Some(name) => {
            &&& res.0 == Presence::named(name)
            &&& if res.0 is Some {
                res.1.says(presence_view(uppercase(name)))
            } else {
                res.1.says(
                    note("❌ Invalid Status"@, "Valid: `online`, `dnd`, `invisible`"@, RED),
                )
            }
        },
    }
}

/// An administrator wants the bot to appear in another way.
pub fn cmd_status(req: &Request) -> (res: (Option<Presence>, Reply))
    ensures
        status_answer(*req, res),
{
    let word: Option<String> = if req.args.len() > 0 {
        Some(to_lower(req.args[0].as_str()))
    } else {
        None
    };
    set_presence(word)
}

/// How a delay of so many milliseconds is rated, and in which colour.
pub open spec fn delay_rating(ms: nat) -> (Seq<char>, u32) {
    if ms < 80 {
        ("🟢 Excellent"@, 0x00FF7Fu32)
    } else if ms < 150 {
        ("🟡 Good"@, 0xFFFF00u32)
    } else if ms < 300 {
        ("🟠 Fair"@, 0xFF8C00u32)
    } else {
        ("🔴 Poor"@, 0xFF0000u32)
    }
}

/// What is posted about the delay.
pub open spec fn pong_view(ms: nat, free: nat) -> EmbedView {
    titled("🏓 Pong!"@, delay_rating(ms).1)
        .field("API Round-Trip"@, "`"@ + decimal(ms) + "ms` — "@ + delay_rating(ms).0, true)
        .field("Semaphore"@, "`"@ + decimal(free) + "/20` free"@, true)
        .signed()
}

/// What is posted about the delay. `free` counts the free slots for outside calls.
pub fn pong(ms: u128, free: usize) -> (e: Embed)
    ensures
        e@ == pong_view(ms as nat, free as nat),
{
    let (quality, color): (&str, u32) = if ms < 80 {
        ("🟢 Excellent", 0x00FF7F)
    } else if ms < 150 {
        ("🟡 Good", 0xFFFF00)
    } else if ms < 300 {
        ("🟠 Fair", 0xFF8C00)
    } else {
        ("🔴 Poor", 0xFF0000)
    };
    let trip = "`".to_string().concat(decimal_text(ms).as_str()).concat("ms` — ").concat(quality);
    let slots = "`".to_string().concat(decimal_text(free as u128).as_str()).concat("/20` free");
    Embed::titled("🏓 Pong!", color)
        .field("API Round-Trip", trip.as_str(), true)
        .field("Semaphore", slots.as_str(), true)
        .signed()
}

/// A member of a guild under its names.
pub struct Named {
    pub person: Person,
    /// The name in the guild.
    pub display: String,
}

/// The first position, from `from` on, where one of two names contains a text.
pub open spec fn named_like(
    displays: Seq<Seq<char>>,
    names: Seq<Seq<char>>,
    part: Seq<char>,
    from: int,
) -> Option<int>
    decreases displays.len() - from,
{
    if from < 0 || from >= displays.len() {
        None
    } else if occurs(displays[from], part) || occurs(names[from], part) {
        Some(from)
    } else {
        named_like(displays, names, part, from + 1)
    }
}

/// The first member one of whose names contains a text, all in lower case.
pub fn match_member(displays: &Vec<String>, names: &Vec<String>, part: &str) -> (res: Option<usize>)
    requires
        displays@.len() == names@.len(),
    ensures
        match res {
            Some(i) => i < names@.len() && named_like(
                texts(displays@),
                texts(names@),
                part@,
                0,
            ) == Some(i as int),
            None => named_like(texts(displays@), texts(names@), part@, 0) is None,
        },
{
    let mut i: usize = 0;
    while i < displays.len()
        invariant
            i <= displays@.len(),
            displays@.len() == names@.len(),
            named_like(texts(displays@), texts(names@), part@, 0) == named_like(
                texts(displays@),
                texts(names@),
                part@,
                i as int,
            ),
        decreases displays@.len() - i,
    {
        if contains(displays[i].as_str(), part) || contains(names[i].as_str(), part) {
            return Some(i);
        }
        i = i + 1;
    }
    None
}

/// The names of members in the guild, in lower case.
pub open spec fn lower_displays(members: Seq<Named>) -> Seq<Seq<char>> {
    members.map_values(|m: Named| lowercase(m.display@))
}

/// The names of members, in lower case.
pub open spec fn lower_user_names(members: Seq<Named>) -> Seq<Seq<char>> {
    members.map_values(|m: Named| lowercase(m.person.name@))
}

/// The first member one of whose names contains a text, whatever the case.
pub open spec fn member_like(members: Seq<Named>, text: Seq<char>) -> Option<int> {
    named_like(lower_displays(members), lower_user_names(members), lowercase(text), 0)
}

fn find_member(members: &Vec<Named>, text: &str) -> (res: Option<usize>)
    ensures
        match res {
            Some(i) => i < members@.len() && member_like(members@, text@) == Some(i as int),
            None => member_like(members@, text@) is None,
        },
{
    let mut displays: Vec<String> = Vec::new();
    let mut names: Vec<String> = Vec::new();
    let mut i: usize = 0;
    while i < members.len()
        invariant
            i <= members@.len(),
            texts(displays@) =~= lower_displays(members@).take(i as int),
            texts(names@) =~= lower_user_names(members@).take(i as int),
        decreases members@.len() - i,
    {
        let ghost before = (displays@, names@);
        let display = to_lower(members[i].display.as_str());
        let name = to_lower(members[i].person.name.as_str());
        displays.push(display);
        names.push(name);
        assert(texts(displays@) =~= texts(before.0).push(display@));
        assert(texts(names@) =~= texts(before.1).push(name@));
        i = i + 1;
    }
    assert(texts(displays@) =~= lower_displays(members@));
    assert(texts(names@) =~= lower_user_names(members@));
    assert(texts(displays@).len() == displays@.len());
    assert(texts(names@).len() == names@.len());
    match_member(&displays, &names, to_lower(text).as_str())
}

/// Whose picture a command asks for: that of the first user that it mentions, or else that of the
/// first member one of whose names contains its words.
pub open spec fn pictured(req: Request, members: Seq<Named>) -> Option<Person> {
    if req.mentions@.len() > 0 {
        Some(req.mentions@[0])
    } else if req.args@.len() > 0 {
        match member_like(members, joined(texts(req.args@), " "@)) {
            Some(i) => Some(members[i].person),
            None => None,
        }
    } else {
        None
    }
}

/// A member asks for a picture: the line above it and the picture, or what is posted instead.
pub fn cmd_av(req: &Request, members: &Vec<Named>) -> (res: Result<(String, Embed), Reply>)
    ensures
        match pictured(*req, members@) {
            Some(user) => res matches Ok(post) && post.0@ == "Avatar for "@ + user_mention(user.id)
                && post.1@ == blank(EMBED_COLOR).image(user.avatar@),
            None => res matches Err(reply) && reply.says(
                note("❌ User Not Found"@, "No member found matching that name."@, RED),
            ),
        },
{
    let user: &Person = if req.mentions.len() > 0 {
        &req.mentions[0]
    } else {
        let found = if req.args.len() > 0 {
            assert(texts(req.args@).skip(0) =~= texts(req.args@));
            find_member(members, join_from(&req.args, 0, " ").as_str())
        } else {
            None
        };
        match found {
            Some(i) => &members[i].person,
            None => {
                return Err(
                    Reply::say(
                        Embed::note(
                            "❌ User Not Found",
                            "No member found matching that name.",
                            RED,
                        ),
                    ),
                );
            },
        }
    };
    let line = "Avatar for ".to_string().concat(mention_user(user.id).as_str());
    Ok((line, Embed::blank(EMBED_COLOR).image(user.avatar.as_str())))
}

/// A guild as it is shown.
pub struct ServerFacts {
    pub id: u64,
    pub name: String,
    pub owner_id: u64,
    pub owner_name: String,
    pub members: u64,
    pub boosts: u64,
    pub tier: PremiumTier,
    pub roles: usize,
    pub channels: Vec<ChannelKind>,
    pub icon: Option<String>,
}

/// What is known of a guild.
pub enum ServerLookup {
    /// Nothing.
    NotCached,
    /// Not who owns it.
    NoOwner,
    Known(ServerFacts),
}

/// How many channels are of a kind.
pub open spec fn kind_count(channels: Seq<ChannelKind>, kind: ChannelKind) -> nat
    decreases channels.len(),
{
    if channels.len() == 0 {
        0
    } else {
        kind_count(channels.drop_last(), kind) + if channels.last() == kind {
            1nat
        } else {
            0nat
        }
    }
}

fn count_kind(channels: &Vec<ChannelKind>, kind: ChannelKind) -> (n: usize)
    ensures
        n == kind_count(channels@, kind),
        n == channels@.filter(|k: ChannelKind| k == kind).len(),
{
    let mut n: usize = 0;
    let mut i: usize = 0;
    assert(channels@.take(0) =~= Seq::empty());
    while i < channels.len()
        invariant
            i <= channels@.len(),
            n <= i,
            n == kind_count(channels@.take(i as int), kind),
        decreases channels@.len() - i,
    {
        assert(channels@.take(i + 1).drop_last() =~= channels@.take(i as int));
        if channels[i] == kind {
            n = n + 1;
        }
        i = i + 1;
    }
    assert(channels@.take(channels@.len() as int) =~= channels@);
    proof {
        channels_of_a_kind_are_counted(channels@, kind);
    }
    n
}

/// The channels of a kind are counted wherever they stand among the others.
pub proof fn channels_of_a_kind_are_counted(channels: Seq<ChannelKind>, kind: ChannelKind)
    ensures
        kind_count(channels, kind) == channels.filter(|k: ChannelKind| k == kind).len(),
    decreases channels.len(),
{
    reveal(Seq::filter);
    if channels.len() > 0 {
        channels_of_a_kind_are_counted(channels.drop_last(), kind);
    }
}

/// What is posted about a guild.
pub open spec fn server_view(facts: ServerFacts) -> EmbedView {
    let channels = facts.channels@;
    let listed = titled("☁️ "@ + facts.name@, EMBED_COLOR)
        .field("Owner"@, user_mention(facts.owner_id) + " ("@ + facts.owner_name@ + ")"@, false)
        .field("ID"@, decimal(facts.id as nat), false)
        .field("Members"@, decimal(facts.members as nat), false)
        .field(
            "Boosts"@,
            decimal(facts.boosts as nat) + " (Level "@ + decimal(tier_number(facts.tier) as nat)
                + ")"@,
            false,
        )
        .field("Roles"@, decimal(facts.roles as nat), false)
        .field(
            "Channels"@,
            decimal(kind_count(channels, ChannelKind::Text)) + " text · "@ + decimal(
                kind_count(channels, ChannelKind::Voice),
            ) + " voice · "@ + decimal(kind_count(channels, ChannelKind::Category))
                + " categories"@,
            false,
        );
    match facts.icon {
        Some(url) => listed.thumbnail(url@),
        None => listed,
    }.signed()
}

fn server_info(facts: &ServerFacts) -> (e: Embed)
    ensures
        e@ == server_view(*facts),
{
    let title = "☁️ ".to_string().concat(facts.name.as_str());
    let owner = mention_user(facts.owner_id).concat(" (").concat(facts.owner_name.as_str()).concat(
        ")",
    );
    let boosts = decimal_text(facts.boosts as u128).concat(" (Level ").concat(
        decimal_text(premium_tier_num(facts.tier) as u128).as_str(),
    ).concat(")");
    let text = count_kind(&facts.channels, ChannelKind::Text);
    let voice = count_kind(&facts.channels, ChannelKind::Voice);
    let categories = count_kind(&facts.channels, ChannelKind::Category);
    let channels = decimal_text(text as u128).concat(" text · ").concat(
        decimal_text(voice as u128).as_str(),
    ).concat(" voice · ").concat(decimal_text(categories as u128).as_str()).concat(" categories");
    let listed = Embed::titled(title.as_str(), EMBED_COLOR)
        .field("Owner", owner.as_str(), false)
        .field("ID", decimal_text(facts.id as u128).as_str(), false)
        .field("Members", decimal_text(facts.members as u128).as_str(), false)
        .field("Boosts", boosts.as_str(), false)
        .field("Roles", decimal_text(facts.roles as u128).as_str(), false)
        .field("Channels", channels.as_str(), false);
    let shown = match &facts.icon {
        Some(url) => listed.thumbnail(url.as_str()),
        None => listed,
    };
    shown.signed()
}

/// A member asks about the guild.
pub fn cmd_serverinfo(known: &ServerLookup) -> (reply: Reply)
    ensures
        match *known {
            ServerLookup::NotCached => reply.says(note("❌ Error"@, "Guild not cached."@, RED)),
            ServerLookup::NoOwner => reply.says(note("❌ Error"@, "Could not fetch owner."@, RED)),
            ServerLookup::Known(facts) => reply.says(server_view(facts)),
        },
{
    match known {
        ServerLookup::NotCached => Reply::say(Embed::note("❌ Error", "Guild not cached.", RED)),
        ServerLookup::NoOwner => Reply::say(Embed::note("❌ Error", "Could not fetch owner.", RED)),
        ServerLookup::Known(facts) => Reply::say(server_info(facts)),
    }
}

/// What is posted about the commands. `icon` is the picture of the bot.
pub open spec fn help_view(icon: Seq<char>) -> EmbedView {
    note("🛡️ Null, X : Security Menu"@, "**REVSHIT**"@, EMBED_COLOR)
        .field(
            "🔒 Anti-Nuke"@,
            "`xantinuke on/off` `xsecurity on/off` `xsetup` `xconfig` `xstats`"@,
            true,
        )
        .field(
            "📋 Whitelist"@,
            "`xwhitelistrole` `xunwhitelistrole` `xwhitelistuser` `xunwhitelistuser` `xwhitelistlist` `xbypasslink` `xremovebypasslink` `xaddlink` `xremovelink`"@,
            true,
        )
        .field(
            "⚔️ Moderation"@,
            "`xpurge` `xwarn` `xmute` `xunmute` `xkick` `xban` `xunban` `xrole` `xhistory`"@,
            true,
        )
        .field(
            "🔧 Utility"@,
            "`xping` `xiplookup` `xipgrab` `xstatus` `xav` `xserverinfo` `xviolations` `xclearviolations`"@,
            true,
        )
        .footer("Coded by ransxmware.xyz — Prefix: x or null"@)
        .thumbnail(icon)
}

/// A member asks for the commands.
pub fn cmd_help(icon: &str) -> (reply: Reply)
    ensures
        reply.says(help_view(icon@)),
{
    Reply::say(
        Embed::note("🛡️ Null, X : Security Menu", "**REVSHIT**", EMBED_COLOR)
            .field(
                "🔒 Anti-Nuke",
                "`xantinuke on/off` `xsecurity on/off` `xsetup` `xconfig` `xstats`",
                true,
            )
            .field(
                "📋 Whitelist",
                "`xwhitelistrole` `xunwhitelistrole` `xwhitelistuser` `xunwhitelistuser` `xwhitelistlist` `xbypasslink` `xremovebypasslink` `xaddlink` `xremovelink`",
                true,
            )
            .field(
                "⚔️ Moderation",
                "`xpurge` `xwarn` `xmute` `xunmute` `xkick` `xban` `xunban` `xrole` `xhistory`",
                true,
            )
            .field(
                "🔧 Utility",
                "`xping` `xiplookup` `xipgrab` `xstatus` `xav` `xserverinfo` `xviolations` `xclearviolations`",
                true,
            )
            .footer("Coded by ransxmware.xyz — Prefix: x or null")
            .thumbnail(icon),
    )
}

/// The position that is found is the first where one of the two names contains the text. None is
/// found where no name does.
pub proof fn first_name_that_contains_is_found(
    displays: Seq<Seq<char>>,
    names: Seq<Seq<char>>,
    part: Seq<char>,
    from: int,
)
    requires
        0 <= from,
        displays.len() == names.len(),
    ensures
        match named_like(displays, names, part, from) {
            Some(i) => {
                &&& from <= i < names.len()
                &&& occurs(displays[i], part) || occurs(names[i], part)
                &&& forall|j: int|
                    from <= j < i ==> !occurs(#[trigger] displays[j], part) && !occurs(
                        names[j],
                        part,
                    )
            },
            None => forall|j: int|
                from <= j < names.len() ==> !occurs(#[trigger] displays[j], part) && !occurs(
                    names[j],
                    part,
                ),
        },
    decreases displays.len() - from,
{
    if from < displays.len() && !occurs(displays[from], part) && !occurs(names[from], part) {
        first_name_that_contains_is_found(displays, names, part, from + 1);
    }
}

/// The picture that a command asks for is that of the first user that it mentions. Without a mention
/// it is that of the first member whose name in the guild or whose own name contains the words of
/// the command, whatever the case, and without words there is none.
pub proof fn mention_goes_before_name(req: Request, members: Seq<Named>)
    ensures
        req.mentions@.len() > 0 ==> pictured(req, members) == Some(req.mentions@[0]),
        req.mentions@.len() == 0 && req.args@.len() == 0 ==> pictured(req, members) is None,
        req.mentions@.len() == 0 && req.args@.len() > 0 ==> ({
            let part = lowercase(joined(texts(req.args@), " "@));
            match pictured(req, members) {
                Some(user) => exists|i: int|
                    {
                        &&& 0 <= i < members.len()
                        &&& (#[trigger] members[i]).person == user
                        &&& occurs(lowercase(members[i].display@), part) || occurs(
                            lowercase(members[i].person.name@),
                            part,
                        )
                        &&& forall|j: int|
                            0 <= j < i ==> !occurs(lowercase((#[trigger] members[j]).display@), part)
                                && !occurs(lowercase(members[j].person.name@), part)
                    },
                None => forall|j: int|
                    0 <= j < members.len() ==> !occurs(
                        lowercase((#[trigger] members[j]).display@),
                        part,
                    ) && !occurs(lowercase(members[j].person.name@), part),
            }
        }),
{
    if req.mentions@.len() == 0 && req.args@.len() > 0 {
        let text = joined(texts(req.args@), " "@);
        let part = lowercase(text);
        let (displays, names) = (lower_displays(members), lower_user_names(members));
        first_name_that_contains_is_found(displays, names, part, 0);
        assert forall|j: int| 0 <= j < members.len() implies displays[j] == lowercase(
            (#[trigger] members[j]).display@,
        ) && names[j] == lowercase(members[j].person.name@) by {}
        match member_like(members, text) {
            Some(i) => {
                assert(members[i].person == members[i].person);
                assert forall|j: int| 0 <= j < i implies !occurs(
                    lowercase((#[trigger] members[j]).display@),
                    part,
                ) && !occurs(lowercase(members[j].person.name@), part) by {
                    assert(!occurs(displays[j], part));
                }
            },
            None => {
                assert forall|j: int| 0 <= j < members.len() implies !occurs(
                    lowercase((#[trigger] members[j]).display@),
                    part,
                ) && !occurs(lowercase(members[j].person.name@), part) by {
                    assert(!occurs(displays[j], part));
                }
            },
        }
    }
}

/// A delay is rated by its length alone: below 80, below 150 and below 300 milliseconds, or more.
pub proof fn longer_delay_is_rated_lower(ms: nat)
    ensures
        ms < 80 ==> delay_rating(ms) == ("🟢 Excellent"@, 0x00FF7Fu32),
        80 <= ms < 150 ==> delay_rating(ms) == ("🟡 Good"@, 0xFFFF00u32),
        150 <= ms < 300 ==> delay_rating(ms) == ("🟠 Fair"@, 0xFF8C00u32),
        300 <= ms ==> delay_rating(ms) == ("🔴 Poor"@, 0xFF0000u32),
{
}

/// An address is looked up exactly if the first word of the command is an IPv4 address, and then that
/// word is what is asked for.
pub proof fn first_word_is_looked_up(req: Request, res: Result<String, Reply>)
    requires
        lookup_answer(req, res),
    ensures
        res is Ok <==> req.args@.len() > 0 && regex_matches(IPV4@, req.args@[0]@),
        res matches Ok(url) ==> url@ == "http://ip-api.com/json/"@ + req.args@[0]@,
        res matches Err(reply) ==> reply.store is None && reply.log is None,
{
}

/// The bot changes its appearance exactly if the first word of the command in lower case names one,
/// and the answer stores nothing.
pub proof fn first_word_names_the_presence(req: Request, res: (Option<Presence>, Reply))
    requires
        status_answer(req, res),
    ensures
        ({
            let word = lowercase(req.args@[0]@);
            let given = req.args@.len() > 0;
            &&& res.0 == Some(Presence::Online) <==> given && word == "online"@
            &&& res.0 == Some(Presence::DoNotDisturb) <==> given && word == "dnd"@
            &&& res.0 == Some(Presence::Invisible) <==> given && word == "invisible"@
        }),
        res.1.store is None,
        res.1.log is None,
{
    reveal_strlit("online");
    reveal_strlit("dnd");
    reveal_strlit("invisible");
    assert("online"@.len() == 6 && "dnd"@.len() == 3 && "invisible"@.len() == 9);
    if req.args@.len() > 0 {
        assert(texts(req.args@)[0] == req.args@[0]@);
    }
}

/// What is posted about a guild counts the channels of each kind that it has.
pub proof fn channels_are_shown_by_kind(facts: ServerFacts)
    ensures
        server_view(facts).fields[5].1 == decimal(
            facts.channels@.filter(|k: ChannelKind| k == ChannelKind::Text).len(),
        ) + " text · "@ + decimal(
            facts.channels@.filter(|k: ChannelKind| k == ChannelKind::Voice).len(),
        ) + " voice · "@ + decimal(
            facts.channels@.filter(|k: ChannelKind| k == ChannelKind::Category).len(),
        ) + " categories"@,
        server_view(facts).fields[0].1 == user_mention(facts.owner_id) + " ("@ + facts.owner_name@
            + ")"@,
        server_view(facts).fields[1].1 == decimal(facts.id as nat),
        server_view(facts).fields[2].1 == decimal(facts.members as nat),
        server_view(facts).fields[4].1 == decimal(facts.roles as nat),
        server_view(facts).fields.len() == 6,
        server_view(facts).thumbnail is Some <==> facts.icon is Some,
        server_view(facts).thumbnail matches Some(url) ==> url == facts.icon->0@,
{
    channels_of_a_kind_are_counted(facts.channels@, ChannelKind::Text);
    channels_of_a_kind_are_counted(facts.channels@, ChannelKind::Voice);
    channels_of_a_kind_are_counted(facts.channels@, ChannelKind::Category);
}

/// What is posted about the settings of a guild shows each limit as it is set.
pub proof fn settings_are_shown_as_they_are(
    enabled: bool,
    cfg: ConfigView,
    punishment: Seq<char>,
    log_channel: Option<u64>,
)
    ensures
        ({
            let shown = config_view(enabled, cfg, punishment, log_channel).fields;
            &&& shown.len() == 6
            &&& shown[0].1 == (if enabled { "✅ ENABLED"@ } else { "🔴 DISABLED"@ })
            &&& log_channel is None ==> shown[1].1 == "❌ Not Set"@
            &&& log_channel matches Some(id) ==> shown[1].1 == channel_mention(id)
            &&& shown[2].1 == "Threshold: "@ + decimal(cfg.mass_ban_threshold as nat)
                + " actions\nWindow: "@ + cfg.mass_ban_window.text + "s\nPunishment: "@ + punishment
            &&& shown[3].1 == "Messages/min: "@ + decimal(cfg.max_messages_per_minute as nat)
                + "\nDuplicate limit: "@ + decimal(cfg.max_duplicate_messages as nat)
                + "\nMax emojis: "@ + decimal(cfg.max_emojis as nat) + "\nAuto-ban at: "@ + decimal(
                cfg.auto_ban_threshold as nat,
            ) + " violations"@
            &&& shown[4].1 == joined(cfg.link_whitelist, ", "@)
            &&& shown[5].1 == decimal(cfg.banned_words.len()) + " words filtered"@
        }),
{
}

/// What is posted about what the bot remembers, about the delay and about an address shows each value
/// under its name, and a word where a value is missing.
pub proof fn values_are_shown_as_they_are(
    violations: nat,
    muted: nat,
    warnings: nat,
    enabled: bool,
    ms: nat,
    free: nat,
    city: Option<Seq<char>>,
    region: Option<Seq<char>>,
    country: Option<Seq<char>>,
    country_code: Option<Seq<char>>,
    isp: Option<Seq<char>>,
    network: Option<Seq<char>>,
    coords: Seq<char>,
    timezone: Option<Seq<char>>,
)
    ensures
        ({
            let stats = stats_view(violations, muted, warnings, enabled).fields;
            &&& stats.len() == 4
            &&& stats[0].1 == decimal(violations)
            &&& stats[1].1 == decimal(muted)
            &&& stats[2].1 == decimal(warnings)
            &&& enabled ==> stats[3].1 == "✅ Active"@
            &&& !enabled ==> stats[3].1 == "🔴 Inactive"@
        }),
        ({
            let pong = pong_view(ms, free);
            &&& pong.color == delay_rating(ms).1
            &&& pong.fields.len() == 2
            &&& pong.fields[0].1 == "`"@ + decimal(ms) + "ms` — "@ + delay_rating(ms).0
            &&& pong.fields[1].1 == "`"@ + decimal(free) + "/20` free"@
        }),
        ({
            let shown = ip_view(
                city,
                region,
                country,
                country_code,
                isp,
                network,
                coords,
                timezone,
            ).fields;
            &&& shown.len() == 7
            &&& city matches Some(t) ==> shown[0].1 == t
            &&& city is None ==> shown[0].1 == "Unknown"@
            &&& region matches Some(t) ==> shown[1].1 == t
            &&& region is None ==> shown[1].1 == "Unknown"@
            &&& country is Some && country_code is Some ==> shown[2].1 == country->0 + " ("@
                + country_code->0 + ")"@
            &&& country is None && country_code is None ==> shown[2].1 == "Unknown"@ + " ("@ + "N/A"@
                + ")"@
            &&& isp matches Some(t) ==> shown[3].1 == t
            &&& isp is None ==> shown[3].1 == "Unknown"@
            &&& network matches Some(t) ==> shown[4].1 == t
            &&& network is None ==> shown[4].1 == "Unknown"@
            &&& shown[5].1 == coords
            &&& timezone matches Some(t) ==> shown[6].1 == t
            &&& timezone is None ==> shown[6].1 == "Unknown"@
        }),
{
}

/// A made-up address is put together from the draws alone, each of which goes round its list, and the
/// joke shows it with the name and picture of the user.
pub proof fn made_up_address_follows_draws(target: Person, draws: Draws, coords: Seq<char>)
    ensures
        ({
            let joke = grab_view(target, draws, coords);
            &&& joke.description == Some("**@GRABBED: "@ + target.name@ + "**"@)
            &&& joke.thumbnail == Some(target.avatar@)
            &&& joke.fields.len() == 7
            &&& joke.fields[0].1 == "`"@ + (ranges()[draws.range as int % 7] + "."@ + decimal(
                draws.third as nat,
            ) + "."@ + decimal(draws.fourth as nat)) + "`"@
            &&& joke.fields[2].1 == cities()[draws.city as int % 7]
            &&& joke.fields[3].1 == provinces()[draws.province as int % 5]
            &&& joke.fields[4].1 == providers()[draws.isp as int % 5]
            &&& joke.fields[6].1 == coords
        }),
{
}

/// The log channel is closed to everyone but the bot, which may see it and write in it.
pub proof fn log_channel_is_for_the_bot(gid: u64, me: u64)
    ensures
        log_overwrites(gid, me).len() == 2,
        log_overwrites(gid, me)[0].target == OverwriteTarget::Role(gid),
        log_overwrites(gid, me)[0].deny == 0x400,
        log_overwrites(gid, me)[0].allow == 0,
        log_overwrites(gid, me)[1].target == OverwriteTarget::Member(me),
        log_overwrites(gid, me)[1].allow == 0xc00,
        log_overwrites(gid, me)[1].deny == 0,
{
    assert(0x400u64 | 0x800u64 == 0xc00) by (bit_vector);
}

/// What the bot knows of an author tells each permission by the bits that the author has, or that it
/// owns the guild.
pub proof fn author_is_described_by_its_bits(req: Request)
    ensures
        ({
            let owner = req.author.id == req.owner_id;
            let all = owner || req.perms & 0x8 == 0x8;
            let yes = |b: bool|
                if b {
                    "true"@
                } else {
                    "false"@
                };
            debug_report(req) == "```\n[DEBUG]\nUser: "@ + req.author.name@ + " ("@ + decimal(
                req.author.id as nat,
            ) + ")\nGuild: "@ + decimal(req.gid as nat) + "\nOwner ID: "@ + decimal(
                req.owner_id as nat,
            ) + "\nIs Owner: "@ + yes(owner) + "\nIs Admin: "@ + yes(all)
                + "\nManage Messages: "@ + yes(all || req.perms & 0x2000 == 0x2000)
                + "\nBan Members: "@ + yes(all || req.perms & 0x4 == 0x4) + "\nKick Members: "@ + yes(
                all || req.perms & 0x2 == 0x2,
            ) + "\nManage Roles: "@ + yes(all || req.perms & 0x10000000 == 0x10000000)
                + "\nRaw Perms bits: "@ + decimal(req.perms as nat) + "\nRoles: "@ + joined(
                Seq::new(req.roles@.len(), |i: int| decimal(req.roles@[i] as nat)),
                ", "@,
            ) + "\n```"@
        }),
{
    assert(decimals(req.roles@) =~= Seq::new(
        req.roles@.len(),
        |i: int| decimal(req.roles@[i] as nat),
    ));
}

} // verus!
