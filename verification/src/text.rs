//! Text: the characters of a message, its words, numbers in it, and texts put together.
use vstd::prelude::*;
use vstd::string::*;

verus! {

/// `String::push` appends one character.
pub assume_specification[ String::push ](s: &mut String, c: char)
    ensures
        final(s)@ == old(s)@.push(c),
;

/// The Unicode characters with the property `White_Space`.
pub open spec fn white_space(c: char) -> bool {
    let n = c as u32;
    ||| 0x09 <= n <= 0x0d
    ||| n == 0x20
    ||| n == 0x85
    ||| n == 0xa0
    ||| n == 0x1680
    ||| 0x2000 <= n <= 0x200a
    ||| n == 0x2028
    ||| n == 0x2029
    ||| n == 0x202f
    ||| n == 0x205f
    ||| n == 0x3000
}

/// `char::is_whitespace` tells whether a character has the property `White_Space`.
pub assume_specification[ char::is_whitespace ](c: char) -> (res: bool)
    ensures
        res == white_space(c),
;

/// What `str::to_lowercase` makes of a text.
pub uninterp spec fn lowercase(s: Seq<char>) -> Seq<char>;

/// What `str::to_uppercase` makes of a text.
pub uninterp spec fn uppercase(s: Seq<char>) -> Seq<char>;

/// All characters are ASCII.
pub open spec fn ascii(s: Seq<char>) -> bool {
    forall|i: int| 0 <= i < s.len() ==> (#[trigger] s[i] as u32) < 0x80
}

/// The letters `A` to `Z` in lower case, everything else as it is.
pub open spec fn ascii_lower(s: Seq<char>) -> Seq<char> {
    s.map_values(|c: char| if 'A' <= c && c <= 'Z' { (c as u32 + 32) as char } else { c })
}

/// The letters `a` to `z` in upper case, everything else as it is.
pub open spec fn ascii_upper(s: Seq<char>) -> Seq<char> {
    s.map_values(|c: char| if 'a' <= c && c <= 'z' { (c as u32 - 32) as char } else { c })
}

/// The ASCII characters at the front of a text are put in lower case one by one and stay at the
/// front.
pub open spec fn front_lowered(s: Seq<char>, lower: Seq<char>) -> bool {
    forall|n: int|
        0 <= n <= s.len() && ascii(#[trigger] s.take(n)) ==> n <= lower.len() && lower.take(n)
            == ascii_lower(s.take(n))
}

/// `str::to_lowercase`: a function of the text alone, which on ASCII texts maps the letters
/// one by one. ASCII characters at the front of any text are mapped like that too, whatever
/// follows them.
#[verifier::external_body]
pub(crate) fn to_lower(s: &str) -> (res: String)
    ensures
        res@ == lowercase(s@),
        ascii(s@) ==> res@ == ascii_lower(s@),
        front_lowered(s@, res@),
{
    s.to_lowercase()
}

/// `str::to_uppercase`: a function of the text alone, which on ASCII texts maps the letters
/// one by one.
#[verifier::external_body]
pub(crate) fn to_upper(s: &str) -> (res: String)
    ensures
        res@ == uppercase(s@),
        ascii(s@) ==> res@ == ascii_upper(s@),
{
    s.to_uppercase()
}

/// The characters of a text.
pub fn chars_of(s: &str) -> (res: Vec<char>)
    ensures
        res@ == s@,
{
    let mut res: Vec<char> = Vec::new();
    for c in it: s.chars()
        invariant
            it.seq() == s@,
            res@ == s@.take(it.index() as int),
    {
        res.push(c);
        assert(s@.take(it.index() + 1) =~= s@.take(it.index() as int).push(c));
    }
    assert(s@.take(s@.len() as int) =~= s@);
    res
}

/// The text made of the characters from `from` on and before `to`.
pub fn text_of(chars: &Vec<char>, from: usize, to: usize) -> (res: String)
    requires
        from <= to <= chars@.len(),
    ensures
        res@ == chars@.subrange(from as int, to as int),
{
    let mut res = String::new();
    let mut i: usize = from;
    while i < to
        invariant
            from <= i <= to <= chars@.len(),
            res@ == chars@.subrange(from as int, i as int),
        decreases to - i,
    {
        res.push(chars[i]);
        assert(chars@.subrange(from as int, i + 1) =~= chars@.subrange(
            from as int,
            i as int,
        ).push(chars@[i as int]));
        i = i + 1;
    }
    res
}

/// Whether two texts are equal.
pub fn same(a: &str, b: &str) -> (res: bool)
    ensures
        res == (a@ == b@),
{
    a.to_string() == b.to_string()
}

/// How many characters stand before the first white space.
pub open spec fn word_len(s: Seq<char>) -> nat
    decreases s.len(),
{
    if s.len() == 0 || white_space(s[0]) {
        0
    } else {
        1 + word_len(s.skip(1))
    }
}

/// The words of a text: its longest runs of characters other than white space.
pub open spec fn words(s: Seq<char>) -> Seq<Seq<char>>
    decreases s.len(),
{
    if s.len() == 0 {
        Seq::empty()
    } else if white_space(s[0]) {
        words(s.skip(1))
    } else if word_len(s) == 0 || word_len(s) > s.len() {
        Seq::empty()
    } else {
        seq![s.take(word_len(s) as int)] + words(s.skip(word_len(s) as int))
    }
}

proof fn word_len_bounds(s: Seq<char>)
    ensures
        word_len(s) <= s.len(),
        s.len() > 0 && !white_space(s[0]) ==> word_len(s) > 0,
    decreases s.len(),
{
    if s.len() > 0 && !white_space(s[0]) {
        word_len_bounds(s.skip(1));
    }
}

/// The texts behind a list of strings.
pub open spec fn texts(list: Seq<String>) -> Seq<Seq<char>> {
    list.map_values(|s: String| s@)
}

/// Cuts a text into its words.
pub fn split_words(s: &str) -> (res: Vec<String>)
    ensures
        texts(res@) == words(s@),
{
    let chars = chars_of(s);
    let mut res: Vec<String> = Vec::new();
    let mut i: usize = 0;
    assert(chars@.skip(0) =~= chars@);
    assert(texts(res@) + words(chars@) =~= words(chars@));
    while i < chars.len()
        invariant
            i <= chars@.len(),
            chars@ == s@,
            words(s@) == texts(res@) + words(chars@.skip(i as int)),
        decreases chars@.len() - i,
    {
        let ghost tail = chars@.skip(i as int);
        proof {
            word_len_bounds(tail);
            assert(tail[0] == chars@[i as int]);
        }
        if chars[i].is_whitespace() {
            assert(tail.skip(1) =~= chars@.skip(i + 1));
            i = i + 1;
        } else {
            let mut j: usize = i;
            assert(chars@.skip(j as int) =~= tail);
            while j < chars.len() && !chars[j].is_whitespace()
                invariant
                    i <= j <= chars@.len(),
                    word_len(tail) == (j - i) + word_len(chars@.skip(j as int)),
                decreases chars@.len() - j,
            {
                assert(chars@.skip(j as int)[0] == chars@[j as int]);
                assert(chars@.skip(j as int).skip(1) =~= chars@.skip(j + 1));
                j = j + 1;
            }
            assert(word_len(tail) == j - i) by {
                if j < chars@.len() {
                    assert(chars@.skip(j as int)[0] == chars@[j as int]);
                }
            }
            let word = text_of(&chars, i, j);
            let ghost before = res@;
            res.push(word);
            proof {
                assert(tail.take((j - i) as int) =~= chars@.subrange(i as int, j as int));
                assert(tail.skip((j - i) as int) =~= chars@.skip(j as int));
                assert(texts(res@) =~= texts(before).push(word@));
                assert(texts(res@) + words(chars@.skip(j as int)) =~= texts(before) + words(tail));
            }
            i = j;
        }
    }
    assert(chars@.skip(i as int) =~= Seq::<char>::empty());
    assert(texts(res@) + words(chars@.skip(i as int)) =~= texts(res@));
    res
}

/// The texts of a list with a separator between neighbours.
pub open spec fn joined(list: Seq<Seq<char>>, sep: Seq<char>) -> Seq<char>
    decreases list.len(),
{
    if list.len() == 0 {
        Seq::empty()
    } else if list.len() == 1 {
        list[0]
    } else {
        joined(list.drop_last(), sep) + sep + list.last()
    }
}

/// Joins the strings from position `from` on.
pub fn join_from(list: &Vec<String>, from: usize, sep: &str) -> (res: String)
    requires
        from <= list@.len(),
    ensures
        res@ == joined(texts(list@).skip(from as int), sep@),
{
    let mut res = String::new();
    let mut i: usize = from;
    let ghost all = texts(list@).skip(from as int);
    assert(all.take(0) =~= Seq::empty());
    while i < list.len()
        invariant
            from <= i <= list@.len(),
            all == texts(list@).skip(from as int),
            res@ == joined(all.take(i - from), sep@),
        decreases list@.len() - i,
    {
        let ghost done = all.take(i - from);
        let ghost next = all.take(i - from + 1);
        assert(next.drop_last() =~= done);
        assert(next.last() == list@[i as int]@);
        if i > from {
            res.append(sep);
        } else {
            assert(res@ + list@[i as int]@ =~= list@[i as int]@);
        }
        res.append(list[i].as_str());
        i = i + 1;
    }
    assert(all.take(all.len() as int) =~= all);
    res
}

/// `needle` stands in `hay` at position `i`.
pub open spec fn stands_at(hay: Seq<char>, needle: Seq<char>, i: int) -> bool {
    &&& 0 <= i <= hay.len() - needle.len()
    &&& hay.subrange(i, i + needle.len()) == needle
}

/// `needle` stands somewhere in `hay`.
pub open spec fn occurs(hay: Seq<char>, needle: Seq<char>) -> bool {
    exists|i: int| stands_at(hay, needle, i)
}

/// `hay` begins with `start`.
pub open spec fn begins(hay: Seq<char>, start: Seq<char>) -> bool {
    stands_at(hay, start, 0)
}

/// `hay` ends with `end`.
pub open spec fn ends(hay: Seq<char>, end: Seq<char>) -> bool {
    stands_at(hay, end, hay.len() - end.len())
}

/// Whether `needle` stands in `hay` at position `at`.
pub fn matches_at(hay: &Vec<char>, needle: &Vec<char>, at: usize) -> (res: bool)
    ensures
        res == stands_at(hay@, needle@, at as int),
{
    if needle.len() > hay.len() || at > hay.len() - needle.len() {
        return false;
    }
    let total: usize = hay.len();
    let mut i: usize = 0;
    while i < needle.len()
        invariant
            i <= needle@.len(),
            total == hay@.len(),
            at + needle@.len() <= total,
            forall|j: int| 0 <= j < i ==> hay@[at + j] == needle@[j],
        decreases needle@.len() - i,
    {
        if hay[at + i] != needle[i] {
            assert(hay@.subrange(at as int, at + needle@.len())[i as int] != needle@[i as int]);
            return false;
        }
        i = i + 1;
    }
    assert(hay@.subrange(at as int, at + needle@.len()) =~= needle@);
    true
}

/// Whether a text contains another.
pub fn contains(hay: &str, needle: &str) -> (res: bool)
    ensures
        res == occurs(hay@, needle@),
{
    let h = chars_of(hay);
    let n = chars_of(needle);
    if n.len() > h.len() {
        return false;
    }
    let last: usize = h.len() - n.len();
    let mut i: usize = 0;
    loop
        invariant
            i <= last,
            last == h@.len() - n@.len(),
            h@ == hay@,
            n@ == needle@,
            forall|j: int| 0 <= j < i ==> !stands_at(h@, n@, j),
        decreases last - i,
    {
        if matches_at(&h, &n, i) {
            return true;
        }
        if i == last {
            return false;
        }
        i = i + 1;
    }
}

/// Whether a text begins with another.
pub fn starts_with(hay: &str, start: &str) -> (res: bool)
    ensures
        res == begins(hay@, start@),
{
    matches_at(&chars_of(hay), &chars_of(start), 0)
}

/// Whether a text ends with another.
pub fn ends_with(hay: &str, end: &str) -> (res: bool)
    ensures
        res == ends(hay@, end@),
{
    let h = chars_of(hay);
    let e = chars_of(end);
    e.len() <= h.len() && matches_at(&h, &e, h.len() - e.len())
}

/// Whether one of the strings is the given text.
pub fn lists(list: &Vec<String>, item: &str) -> (res: bool)
    ensures
        res == texts(list@).contains(item@),
{
    let mut i: usize = 0;
    while i < list.len()
        invariant
            i <= list@.len(),
            forall|j: int| 0 <= j < i ==> texts(list@)[j] != item@,
        decreases list@.len() - i,
    {
        if same(list[i].as_str(), item) {
            assert(texts(list@)[i as int] == item@);
            return true;
        }
        i = i + 1;
    }
    false
}

/// A text stands in another exactly if that is made of something, the text, and something more.
pub proof fn occurs_in_between(hay: Seq<char>, needle: Seq<char>)
    ensures
        occurs(hay, needle) <==> exists|a: Seq<char>, b: Seq<char>| hay == #[trigger] (a + needle + b),
{
    if occurs(hay, needle) {
        let i = choose|i: int| stands_at(hay, needle, i);
        let a = hay.take(i);
        let b = hay.skip(i + needle.len());
        assert(hay =~= a + hay.subrange(i, i + needle.len()) + b);
        assert(hay == a + needle + b);
    }
    if exists|a: Seq<char>, b: Seq<char>| hay == #[trigger] (a + needle + b) {
        let (a, b) = choose|a: Seq<char>, b: Seq<char>| hay == #[trigger] (a + needle + b);
        assert(hay.subrange(a.len() as int, (a.len() + needle.len()) as int) =~= needle);
        assert(stands_at(hay, needle, a.len() as int));
    }
}

/// A text begins with another exactly if it is that and something more, and ends with another
/// exactly if it is something and that.
pub proof fn begins_and_ends(hay: Seq<char>, part: Seq<char>)
    ensures
        begins(hay, part) <==> exists|b: Seq<char>| hay == #[trigger] (part + b),
        ends(hay, part) <==> exists|a: Seq<char>| hay == #[trigger] (a + part),
{
    if begins(hay, part) {
        assert(hay =~= hay.subrange(0, part.len() as int) + hay.skip(part.len() as int));
        assert(hay == part + hay.skip(part.len() as int));
    }
    if exists|b: Seq<char>| hay == #[trigger] (part + b) {
        assert(hay.subrange(0, part.len() as int) =~= part);
    }
    let n = hay.len() - part.len();
    if ends(hay, part) {
        assert(hay =~= hay.take(n) + hay.subrange(n, n + part.len()));
        assert(hay == hay.take(n) + part);
    }
    if exists|a: Seq<char>| hay == #[trigger] (a + part) {
        assert(hay.subrange(n, n + part.len()) =~= part);
    }
}

proof fn word_len_across(a: Seq<char>, c: char, b: Seq<char>)
    requires
        white_space(c),
    ensures
        word_len(a.push(c) + b) == word_len(a),
    decreases a.len(),
{
    let s = a.push(c) + b;
    if a.len() == 0 {
        assert(s[0] == c);
    } else {
        assert(s[0] == a[0]);
        if !white_space(a[0]) {
            assert(s.skip(1) =~= a.skip(1).push(c) + b);
            word_len_across(a.skip(1), c, b);
        }
    }
}

/// White space parts words: the words of a text are those before it and those behind it.
pub proof fn space_parts_words(a: Seq<char>, c: char, b: Seq<char>)
    requires
        white_space(c),
    ensures
        words(a.push(c) + b) == words(a) + words(b),
    decreases a.len(),
{
    let s = a.push(c) + b;
    if a.len() == 0 {
        assert(s.skip(1) =~= b);
        assert(words(a) + words(b) =~= words(b));
    } else if white_space(a[0]) {
        assert(s[0] == a[0]);
        assert(s.skip(1) =~= a.skip(1).push(c) + b);
        space_parts_words(a.skip(1), c, b);
    } else {
        word_len_across(a, c, b);
        word_len_bounds(a);
        let k = word_len(a) as int;
        assert(s[0] == a[0]);
        assert(s.take(k) =~= a.take(k));
        assert(s.skip(k) =~= a.skip(k).push(c) + b);
        space_parts_words(a.skip(k), c, b);
        assert(words(s) =~= words(a) + words(b));
    }
}

/// A text without white space is one word, and an empty one none.
pub proof fn unparted_is_one_word(s: Seq<char>)
    requires
        forall|i: int| 0 <= i < s.len() ==> !white_space(#[trigger] s[i]),
    ensures
        words(s) == (if s.len() == 0 {
            Seq::<Seq<char>>::empty()
        } else {
            seq![s]
        }),
{
    if s.len() > 0 {
        whole_word(s);
        assert(s.take(s.len() as int) =~= s);
        assert(words(s.skip(s.len() as int)) =~= Seq::<Seq<char>>::empty());
        assert(words(s) =~= seq![s]);
    }
}

proof fn whole_word(s: Seq<char>)
    requires
        forall|i: int| 0 <= i < s.len() ==> !white_space(#[trigger] s[i]),
    ensures
        word_len(s) == s.len(),
    decreases s.len(),
{
    if s.len() > 0 {
        assert forall|i: int| 0 <= i < s.skip(1).len() implies !white_space(
            #[trigger] s.skip(1)[i],
        ) by {
            assert(s.skip(1)[i] == s[i + 1]);
        }
        whole_word(s.skip(1));
        assert(!white_space(s[0]));
    }
}

/// Words that are put together with spaces between them are the words of what comes out.
pub proof fn joined_words_are_words(list: Seq<Seq<char>>)
    requires
        forall|i: int| 0 <= i < list.len() ==> (#[trigger] list[i]).len() > 0,
        forall|i: int, j: int|
            0 <= i < list.len() && 0 <= j < list[i].len() ==> !white_space(#[trigger] list[i][j]),
    ensures
        words(joined(list, " "@)) == list,
    decreases list.len(),
{
    reveal_strlit(" ");
    if list.len() > 0 {
        let rest = list.drop_last();
        let last = list.last();
        assert(last == list[list.len() - 1]);
        assert forall|j: int| 0 <= j < last.len() implies !white_space(#[trigger] last[j]) by {
            assert(!white_space(list[list.len() - 1][j]));
        }
        unparted_is_one_word(last);
        if list.len() == 1 {
            assert(list =~= seq![last]);
        } else {
            assert forall|i: int| 0 <= i < rest.len() implies (#[trigger] rest[i]).len() > 0 by {
                assert(rest[i] == list[i]);
            }
            assert forall|i: int, j: int|
                0 <= i < rest.len() && 0 <= j < rest[i].len() implies !white_space(
                #[trigger] rest[i][j],
            ) by {
                assert(rest[i] == list[i]);
                assert(!white_space(list[i][j]));
            }
            joined_words_are_words(rest);
            let front = joined(rest, " "@);
            assert(" "@ =~= seq![' ']);
            assert(front + " "@ + last =~= front.push(' ') + last);
            space_parts_words(front, ' ', last);
            assert(rest + seq![last] =~= list);
        }
    }
}

/// Two lists that are put together one behind the other have one more separator between them. A
/// list of one text is that text, and a list of none is empty.
pub proof fn joined_in_parts(a: Seq<Seq<char>>, b: Seq<Seq<char>>, sep: Seq<char>, one: Seq<char>)
    requires
        a.len() > 0,
        b.len() > 0,
    ensures
        joined(a + b, sep) == joined(a, sep) + sep + joined(b, sep),
        joined(seq![one], sep) == one,
        joined(Seq::empty(), sep) == Seq::<char>::empty(),
    decreases b.len(),
{
    assert((a + b).drop_last() =~= a + b.drop_last());
    assert((a + b).last() == b.last());
    if b.len() == 1 {
        assert(a + b.drop_last() =~= a);
    } else {
        joined_in_parts(a, b.drop_last(), sep, one);
        assert(joined(a + b, sep) =~= joined(a, sep) + sep + joined(b, sep));
    }
}

/// There is one text for each string, in the same order.
pub proof fn texts_keep_their_places(list: Seq<String>, i: int)
    requires
        0 <= i < list.len(),
    ensures
        texts(list).len() == list.len(),
        texts(list)[i] == list[i]@,
{
}

/// Characters are put in lower and upper case one by one at their places: letters of one case become
/// those of the other, and everything else stays.
pub proof fn case_changes_letters_alone(s: Seq<char>, i: int)
    requires
        0 <= i < s.len(),
    ensures
        ascii_lower(s).len() == s.len(),
        ascii_upper(s).len() == s.len(),
        'A' <= s[i] <= 'Z' ==> ascii_lower(s)[i] as u32 == s[i] as u32 + 32,
        !('A' <= s[i] <= 'Z') ==> ascii_lower(s)[i] == s[i],
        'a' <= s[i] <= 'z' ==> ascii_upper(s)[i] as u32 == s[i] as u32 - 32,
        !('a' <= s[i] <= 'z') ==> ascii_upper(s)[i] == s[i],
{
}

} // verus!
