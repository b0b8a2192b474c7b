//! One level of a command line: long options in any order, then the end or a
//! word that names a subcommand.
//!
//! An option is written `--name value` or `--name=value`, a flag `--name`, and
//! each at most once. A value that looks like an option must be attached.

use vstd::prelude::*;
use vstd::string::*;

use crate::text;

verus! {

/// What one level was given: a value for each valued option, whether each flag
/// was set, and what is left from the first word on.
#[verifier::ext_equal]
pub struct GivenView {
    pub values: Seq<Option<Seq<char>>>,
    pub flags: Seq<bool>,
    pub rest: Seq<Seq<char>>,
}

/// The position of a name in a table, or the table's length.
pub open spec fn slot(names: Seq<Seq<char>>, name: Seq<char>) -> int
    decreases names.len(),
{
    if names.len() == 0 || names[0] == name {
        0
    } else {
        1 + slot(names.subrange(1, names.len() as int), name)
    }
}

/// Whether a token is written as an option.
pub open spec fn hyphenated(t: Seq<char>) -> bool {
    t.len() >= 2 && t[0] == '-'
}

/// Whether a token is written as a long option.
pub open spec fn dashed(t: Seq<char>) -> bool {
    hyphenated(t) && t[1] == '-'
}

/// The name of a long option.
pub open spec fn option_name(t: Seq<char>) -> Seq<char> {
    let body = t.subrange(2, t.len() as int);
    body.subrange(0, text::first_position(body, '='))
}

/// The value attached to a long option, if any.
pub open spec fn attached(t: Seq<char>) -> Option<Seq<char>> {
    let body = t.subrange(2, t.len() as int);
    let eq = text::first_position(body, '=');
    if eq < body.len() {
        Some(body.subrange(eq + 1, body.len() as int))
    } else {
        None
    }
}

/// Read one level, with what was given before. Nothing for a line the grammar
/// does not hold.
pub open spec fn scan(
    valued: Seq<Seq<char>>,
    flags: Seq<Seq<char>>,
    tokens: Seq<Seq<char>>,
    values: Seq<Option<Seq<char>>>,
    set: Seq<bool>,
) -> Option<GivenView>
    decreases tokens.len(),
{
    if tokens.len() == 0 {
        Some(GivenView { values, flags: set, rest: tokens })
    } else {
        let t = tokens[0];
        let next = tokens.subrange(1, tokens.len() as int);
        if !hyphenated(t) {
            Some(GivenView { values, flags: set, rest: tokens })
        } else if !dashed(t) {
            None
        } else if t.len() == 2 {
            if next.len() == 0 {
                Some(GivenView { values, flags: set, rest: next })
            } else {
                None
            }
        } else {
            let v = slot(valued, option_name(t));
            let f = slot(flags, option_name(t));
            if v < valued.len() {
                if values[v] is Some {
                    None
                } else if attached(t) is Some {
                    scan(valued, flags, next, values.update(v, attached(t)), set)
                } else if next.len() == 0 || hyphenated(next[0]) {
                    None
                } else {
                    scan(
                        valued,
                        flags,
                        next.subrange(1, next.len() as int),
                        values.update(v, Some(next[0])),
                        set,
                    )
                }
            } else if f < flags.len() {
                if set[f] || attached(t) is Some {
                    None
                } else {
                    scan(valued, flags, next, values, set.update(f, true))
                }
            } else {
                None
            }
        }
    }
}

/// Read one level from nothing given.
pub open spec fn level(
    valued: Seq<Seq<char>>,
    flags: Seq<Seq<char>>,
    tokens: Seq<Seq<char>>,
) -> Option<GivenView> {
    scan(
        valued,
        flags,
        tokens,
        Seq::new(valued.len(), |i: int| None),
        Seq::new(flags.len(), |i: int| false),
    )
}

/// What one level was given, up to the argument at `rest`.
#[derive(Debug)]
pub struct Given {
    pub values: Vec<Option<String>>,
    pub flags: Vec<bool>,
    pub rest: usize,
}

/// The views of optional values.
pub open spec fn value_views(values: Seq<Option<String>>) -> Seq<Option<Seq<char>>> {
    values.map_values(
        |v: Option<String>|
            match v {
                Some(s) => Some(s@),
                None => None,
            },
    )
}

/// The views of a table of names.
pub open spec fn names(table: Seq<&'static str>) -> Seq<Seq<char>> {
    table.map_values(|n: &'static str| n@)
}

/// The position of a name in a table.
fn find_slot(table: &Vec<&'static str>, name: &str) -> (r: Option<usize>)
    ensures
        r is Some <==> slot(names(table@), name@) < table@.len(),
        r matches Some(i) ==> i == slot(names(table@), name@) && i < table@.len(),
{
    let n: usize = table.len();
    let mut i: usize = 0;
    let ghost all = names(table@);
    assert(all.subrange(0, n as int) =~= all);
    while i < n
        invariant
            n == table@.len(),
            all == names(table@),
            all.len() == n,
            i <= n,
            slot(all, name@) == i + slot(all.subrange(i as int, n as int), name@),
        decreases n - i,
    {
        let ghost rest = all.subrange(i as int, n as int);
        assert(rest.subrange(1, rest.len() as int) =~= all.subrange(i + 1, n as int));
        if text::same(table[i], name) {
            return Some(i);
        }
        i = i + 1;
    }
    None
}

/// Whether a token is written as an option.
fn is_hyphenated(t: &str) -> (r: bool)
    ensures
        r == hyphenated(t@),
{
    t.unicode_len() >= 2 && t.get_char(0) == '-'
}

/// The name of a long option, and the value attached to it.
fn split_option(t: &str) -> (r: (String, Option<String>))
    requires
        dashed(t@),
    ensures
        r.0@ == option_name(t@),
        r.1 is Some <==> attached(t@) is Some,
        r.1 matches Some(v) ==> attached(t@) == Some(v@),
{
    let n: usize = t.unicode_len();
    let mut i: usize = 2;
    let ghost body = t@.subrange(2, n as int);
    assert(body.subrange(0, body.len() as int) =~= body);
    while i < n && t.get_char(i) != '='
        invariant
            n == t@.len(),
            2 <= i <= n,
            body == t@.subrange(2, n as int),
            text::first_position(body, '=') == i - 2 + text::first_position(
                body.subrange(i - 2, body.len() as int),
                '=',
            ),
        decreases n - i,
    {
        let ghost rest = body.subrange(i - 2, body.len() as int);
        assert(rest.subrange(1, rest.len() as int) =~= body.subrange(i - 1, body.len() as int));
        i = i + 1;
    }
    let name = t.substring_char(2, i).to_owned();
    assert(t@.subrange(2, i as int) =~= body.subrange(0, i - 2));
    if i < n {
        assert(t@.subrange(i + 1, n as int) =~= body.subrange(i - 1, body.len() as int));
        (name, Some(t.substring_char(i + 1, n).to_owned()))
    } else {
        (name, None)
    }
}

/// The arguments from `from` on.
pub open spec fn tail(args: Seq<String>, from: int) -> Seq<Seq<char>> {
    text::views(args).subrange(from, args.len() as int)
}

proof fn tail_step(args: Seq<String>, from: int)
    requires
        0 <= from < args.len(),
    ensures
        tail(args, from).len() == args.len() - from,
        tail(args, from)[0] == args[from]@,
        tail(args, from).subrange(1, args.len() - from) =~= tail(args, from + 1),
{
}

proof fn set_value(values: Seq<Option<String>>, at: int, v: String)
    requires
        0 <= at < values.len(),
    ensures
        value_views(values.update(at, Some(v))) =~= value_views(values).update(at, Some(v@)),
{
}

/// Read one level of the arguments from `from` on.
pub fn read_level(
    args: &Vec<String>,
    from: usize,
    valued: &Vec<&'static str>,
    flags: &Vec<&'static str>,
) -> (r: Option<Given>)
    requires
        from <= args@.len(),
    ensures
        r is Some <==> level(names(valued@), names(flags@), tail(args@, from as int)) is Some,
        r matches Some(g) ==> {
            let view = level(names(valued@), names(flags@), tail(args@, from as int))->0;
            &&& value_views(g.values@) == view.values
            &&& g.flags@ == view.flags
            &&& g.rest <= args@.len()
            &&& tail(args@, g.rest as int) == view.rest
            &&& g.values@.len() == valued@.len()
            &&& g.flags@.len() == flags@.len()
        },
{
    let mut values: Vec<Option<String>> = Vec::new();
    let mut i: usize = 0;
    while i < valued.len()
        invariant
            i <= valued@.len(),
            values@.len() == i,
            forall|j: int| 0 <= j < i ==> (#[trigger] values@[j]) is None,
        decreases valued@.len() - i,
    {
        values.push(None);
        i = i + 1;
    }
    let mut set: Vec<bool> = Vec::new();
    let mut i: usize = 0;
    while i < flags.len()
        invariant
            i <= flags@.len(),
            set@.len() == i,
            forall|j: int| 0 <= j < i ==> !(#[trigger] set@[j]),
        decreases flags@.len() - i,
    {
        set.push(false);
        i = i + 1;
    }
    let ghost vn = names(valued@);
    let ghost fnames = names(flags@);
    let ghost whole = level(vn, fnames, tail(args@, from as int));
    assert(value_views(values@) =~= Seq::new(vn.len(), |i: int| None));
    assert(set@ =~= Seq::new(fnames.len(), |i: int| false));
    let n: usize = args.len();
    let mut at: usize = from;
    while at < n
        invariant
            n == args@.len(),
            at <= n,
            vn == names(valued@),
            fnames == names(flags@),
            values@.len() == valued@.len(),
            set@.len() == flags@.len(),
            whole == scan(vn, fnames, tail(args@, at as int), value_views(values@), set@),
            whole == level(vn, fnames, tail(args@, from as int)),
        decreases n - at,
    {
        let t = args[at].as_str();
        proof {
            tail_step(args@, at as int);
        }
        if !is_hyphenated(t) {
            return Some(Given { values, flags: set, rest: at });
        }
        if t.get_char(1) != '-' {
            return None;
        }
        if t.unicode_len() == 2 {
            if at + 1 == n {
                assert(tail(args@, n as int) =~= tail(args@, at as int).subrange(1, 1));
                return Some(Given { values, flags: set, rest: n });
            }
            return None;
        }
        let (name, value) = split_option(t);
        if let Some(v) = find_slot(valued, name.as_str()) {
            if values[v].is_some() {
                return None;
            }
            if let Some(value) = value {
                proof {
                    set_value(values@, v as int, value);
                }
                values.set(v, Some(value));
                at = at + 1;
            } else {
                if at + 1 == n || is_hyphenated(args[at + 1].as_str()) {
                    proof {
                        if at + 1 < n {
                            tail_step(args@, at + 1);
                        }
                    }
                    return None;
                }
                let value = args[at + 1].clone();
                proof {
                    tail_step(args@, at + 1);
                    set_value(values@, v as int, value);
                }
                values.set(v, Some(value));
                at = at + 2;
            }
        } else if let Some(f) = find_slot(flags, name.as_str()) {
            if set[f] || value.is_some() {
                return None;
            }
            set.set(f, true);
            at = at + 1;
        } else {
            return None;
        }
    }
    assert(tail(args@, n as int).len() == 0);
    Some(Given { values, flags: set, rest: n })
}

// ---------------------------------------------------------------------------
// What a level takes
// ---------------------------------------------------------------------------

proof fn slot_is_first(names: Seq<Seq<char>>, name: Seq<char>)
    ensures
        0 <= slot(names, name) <= names.len(),
        slot(names, name) < names.len() ==> names[slot(names, name)] == name,
        forall|j: int| 0 <= j < slot(names, name) ==> #[trigger] names[j] != name,
    decreases names.len(),
{
    if names.len() > 0 && names[0] != name {
        let rest = names.subrange(1, names.len() as int);
        slot_is_first(rest, name);
        assert forall|j: int| 0 <= j < slot(names, name) implies #[trigger] names[j] != name by {
            if j > 0 {
                assert(rest[j - 1] == names[j]);
            }
        }
    }
}

proof fn no_position(s: Seq<char>, c: char)
    requires
        !s.contains(c),
    ensures
        text::first_position(s, c) == s.len(),
    decreases s.len(),
{
    if s.len() > 0 {
        assert(s.contains(s[0]));
        let rest = s.subrange(1, s.len() as int);
        assert(!rest.contains(c)) by {
            if rest.contains(c) {
                let i = choose|i: int| 0 <= i < rest.len() && rest[i] == c;
                assert(s[i + 1] == c);
                assert(s.contains(c));
            }
        }
        no_position(rest, c);
    }
}

/// Which names an option: the two hyphens, its name, and nothing attached.
proof fn a_bare_option(name: Seq<char>)
    requires
        name.len() > 0,
        !name.contains('='),
    ensures
        ({
            let t = seq!['-', '-'] + name;
            &&& dashed(t)
            &&& t.len() > 2
            &&& option_name(t) == name
            &&& attached(t) is None
        }),
{
    let t = seq!['-', '-'] + name;
    assert(t.subrange(2, t.len() as int) =~= name);
    no_position(name, '=');
    assert(name.subrange(0, name.len() as int) =~= name);
}

/// An option with a value attached by the first equals sign, whatever the
/// value holds.
proof fn an_attached_option(name: Seq<char>, value: Seq<char>)
    requires
        name.len() > 0,
        !name.contains('='),
    ensures
        ({
            let t = seq!['-', '-'] + name + seq!['='] + value;
            &&& dashed(t)
            &&& t.len() > 2
            &&& option_name(t) == name
            &&& attached(t) == Some(value)
        }),
{
    let t = seq!['-', '-'] + name + seq!['='] + value;
    let body = t.subrange(2, t.len() as int);
    assert(body =~= name + seq!['='] + value);
    assert forall|j: int| 0 <= j < name.len() implies body[j] != '=' by {
        assert(name.contains(name[j]));
    }
    text::first_position_found(body, '=', name.len() as int);
    assert(body.subrange(0, name.len() as int) =~= name);
    assert(body.subrange(name.len() as int + 1, body.len() as int) =~= value);
}

/// A word is no option: a level ends there, or at the end, with nothing read.
pub proof fn a_word_ends_the_level(
    valued: Seq<Seq<char>>,
    flags: Seq<Seq<char>>,
    tokens: Seq<Seq<char>>,
    values: Seq<Option<Seq<char>>>,
    set: Seq<bool>,
)
    requires
        tokens.len() == 0 || tokens[0].len() < 2 || tokens[0][0] != '-',
    ensures
        scan(valued, flags, tokens, values, set) == Some(
            (GivenView { values, flags: set, rest: tokens }),
        ),
{
}

/// A valued option takes the token behind it, unless that is written as an
/// option; given twice, it is refused.
pub proof fn an_option_takes_the_next_token(
    valued: Seq<Seq<char>>,
    flags: Seq<Seq<char>>,
    v: int,
    value: Seq<char>,
    rest: Seq<Seq<char>>,
    values: Seq<Option<Seq<char>>>,
    set: Seq<bool>,
)
    requires
        0 <= v < valued.len(),
        valued.no_duplicates(),
        valued[v].len() > 0,
        !valued[v].contains('='),
        values.len() == valued.len(),
    ensures
        ({
            let line = seq![seq!['-', '-'] + valued[v], value] + rest;
            let r = scan(valued, flags, line, values, set);
            &&& values[v] is Some ==> r is None
            &&& value.len() >= 2 && value[0] == '-' ==> r is None
            &&& values[v] is None && !(value.len() >= 2 && value[0] == '-') ==> r == scan(
                valued,
                flags,
                rest,
                values.update(v, Some(value)),
                set,
            )
        }),
        scan(valued, flags, seq![seq!['-', '-'] + valued[v]], values, set) is None,
{
    let name = valued[v];
    let t = seq!['-', '-'] + name;
    a_bare_option(name);
    slot_is_first(valued, name);
    assert(slot(valued, name) == v);
    let line = seq![t, value] + rest;
    assert(line[0] == t);
    let next = line.subrange(1, line.len() as int);
    assert(next[0] == value);
    assert(next.subrange(1, next.len() as int) =~= rest);
    let alone = seq![t];
    assert(alone.subrange(1, 1).len() == 0);
}

/// An attached value is taken whatever it looks like.
pub proof fn an_attached_value_is_taken(
    valued: Seq<Seq<char>>,
    flags: Seq<Seq<char>>,
    v: int,
    value: Seq<char>,
    rest: Seq<Seq<char>>,
    values: Seq<Option<Seq<char>>>,
    set: Seq<bool>,
)
    requires
        0 <= v < valued.len(),
        valued.no_duplicates(),
        valued[v].len() > 0,
        !valued[v].contains('='),
        values.len() == valued.len(),
    ensures
        ({
            let line = seq![seq!['-', '-'] + valued[v] + seq!['='] + value] + rest;
            let r = scan(valued, flags, line, values, set);
            &&& values[v] is Some ==> r is None
            &&& values[v] is None ==> r == scan(
                valued,
                flags,
                rest,
                values.update(v, Some(value)),
                set,
            )
        }),
{
    let name = valued[v];
    let t = seq!['-', '-'] + name + seq!['='] + value;
    an_attached_option(name, value);
    slot_is_first(valued, name);
    assert(slot(valued, name) == v);
    let line = seq![t] + rest;
    assert(line[0] == t);
    assert(line.subrange(1, line.len() as int) =~= rest);
}

/// A flag is set by its name alone: given twice, or with a value, it is
/// refused.
pub proof fn a_flag_is_set_by_its_name(
    valued: Seq<Seq<char>>,
    flags: Seq<Seq<char>>,
    f: int,
    value: Seq<char>,
    rest: Seq<Seq<char>>,
    values: Seq<Option<Seq<char>>>,
    set: Seq<bool>,
)
    requires
        0 <= f < flags.len(),
        flags.no_duplicates(),
        !valued.contains(flags[f]),
        flags[f].len() > 0,
        !flags[f].contains('='),
        set.len() == flags.len(),
    ensures
        ({
            let line = seq![seq!['-', '-'] + flags[f]] + rest;
            let r = scan(valued, flags, line, values, set);
            &&& set[f] ==> r is None
            &&& !set[f] ==> r == scan(valued, flags, rest, values, set.update(f, true))
        }),
        scan(
            valued,
            flags,
            seq![seq!['-', '-'] + flags[f] + seq!['='] + value] + rest,
            values,
            set,
        ) is None,
{
    let name = flags[f];
    a_bare_option(name);
    an_attached_option(name, value);
    slot_is_first(valued, name);
    slot_is_first(flags, name);
    if slot(valued, name) < valued.len() {
        assert(valued.contains(valued[slot(valued, name)]));
    }
    assert(slot(flags, name) == f);
    let bare = seq![seq!['-', '-'] + name] + rest;
    assert(bare[0] == seq!['-', '-'] + name);
    assert(bare.subrange(1, bare.len() as int) =~= rest);
    let with = seq![seq!['-', '-'] + name + seq!['='] + value] + rest;
    assert(with[0] == seq!['-', '-'] + name + seq!['='] + value);
}

/// An option a level does not know is refused, and so is a short one.
pub proof fn an_unknown_option_is_refused(
    valued: Seq<Seq<char>>,
    flags: Seq<Seq<char>>,
    name: Seq<char>,
    rest: Seq<Seq<char>>,
    values: Seq<Option<Seq<char>>>,
    set: Seq<bool>,
    short: Seq<char>,
)
    requires
        name.len() > 0,
        !name.contains('='),
        !valued.contains(name),
        !flags.contains(name),
        short.len() >= 2,
        short[0] == '-',
        short[1] != '-',
    ensures
        scan(valued, flags, seq![seq!['-', '-'] + name] + rest, values, set) is None,
        scan(valued, flags, seq![short] + rest, values, set) is None,
{
    a_bare_option(name);
    slot_is_first(valued, name);
    slot_is_first(flags, name);
    if slot(valued, name) < valued.len() {
        assert(valued.contains(valued[slot(valued, name)]));
    }
    if slot(flags, name) < flags.len() {
        assert(flags.contains(flags[slot(flags, name)]));
    }
    let line = seq![seq!['-', '-'] + name] + rest;
    assert(line[0] == seq!['-', '-'] + name);
    let brief = seq![short] + rest;
    assert(brief[0] == short);
}

/// Two hyphens alone end the options: nothing may follow them.
pub proof fn two_hyphens_end_the_line(
    valued: Seq<Seq<char>>,
    flags: Seq<Seq<char>>,
    rest: Seq<Seq<char>>,
    values: Seq<Option<Seq<char>>>,
    set: Seq<bool>,
)
    ensures
        ({
            let r = scan(valued, flags, seq![seq!['-', '-']] + rest, values, set);
            &&& rest.len() > 0 ==> r is None
            &&& rest.len() == 0 ==> r == Some((GivenView { values, flags: set, rest }))
        }),
{
    let line = seq![seq!['-', '-']] + rest;
    assert(line[0] == seq!['-', '-']);
    assert(line.subrange(1, line.len() as int) =~= rest);
}

/// A level starts from nothing: no option has a value and no flag is set
/// before the first token is read.
pub proof fn a_level_starts_from_nothing(
    valued: Seq<Seq<char>>,
    flags: Seq<Seq<char>>,
    tokens: Seq<Seq<char>>,
    values: Seq<Option<Seq<char>>>,
    set: Seq<bool>,
)
    requires
        values.len() == valued.len(),
        forall|i: int| 0 <= i < values.len() ==> (#[trigger] values[i]) is None,
        set.len() == flags.len(),
        forall|i: int| 0 <= i < set.len() ==> !#[trigger] set[i],
    ensures
        level(valued, flags, tokens) == scan(valued, flags, tokens, values, set),
{
    assert(values =~= Seq::new(valued.len(), |i: int| None));
    assert(set =~= Seq::new(flags.len(), |i: int| false));
}

} // verus!
