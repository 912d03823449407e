//! The commands of the database schema script: the statements between `;`,
//! trimmed, without empty ones and without `CREATE DATABASE`.

use vstd::prelude::*;

verus! {

/// The characters with the Unicode `White_Space` property, which `char::is_whitespace` accepts.
pub open spec fn is_white_space(c: char) -> bool {
    let u = c as u32;
    ||| 0x09 <= u <= 0x0d
    ||| u == 0x20 || u == 0x85 || u == 0xa0 || u == 0x1680
    ||| 0x2000 <= u <= 0x200a
    ||| u == 0x2028 || u == 0x2029 || u == 0x202f || u == 0x205f || u == 0x3000
}

/// `s` without its leading and trailing white space.
pub open spec fn trimmed(s: Seq<char>) -> Seq<char>
    decreases s.len(),
{
    if s.len() > 0 && is_white_space(s[0]) {
        trimmed(s.skip(1))
    } else if s.len() > 0 && is_white_space(s.last()) {
        trimmed(s.drop_last())
    } else {
        s
    }
}

/// What `str::to_uppercase` gives for `s` (the Unicode upper-case mapping).
pub uninterp spec fn upper_case(s: Seq<char>) -> Seq<char>;

/// Whether `c` has the Unicode `White_Space` property.
fn white_space(c: char) -> (w: bool)
    ensures
        w == is_white_space(c),
{
    let u = c as u32;
    (0x09 <= u && u <= 0x0d) || u == 0x20 || u == 0x85 || u == 0xa0 || u == 0x1680
        || (0x2000 <= u && u <= 0x200a)
        || u == 0x2028 || u == 0x2029 || u == 0x202f || u == 0x205f || u == 0x3000
}

proof fn lemma_trim_start(s: Seq<char>, a: int)
    requires
        0 <= a <= s.len(),
        forall|i: int| 0 <= i < a ==> is_white_space(#[trigger] s[i]),
    ensures
        trimmed(s) == trimmed(s.skip(a)),
    decreases a,
{
    if a > 0 {
        let t = s.skip(1);
        assert forall|i: int| 0 <= i < a - 1 implies is_white_space(#[trigger] t[i]) by {
            assert(t[i] == s[i + 1]);
        }
        lemma_trim_start(t, a - 1);
        assert(t.skip(a - 1) =~= s.skip(a));
    } else {
        assert(s.skip(0) =~= s);
    }
}

proof fn lemma_trim_end(t: Seq<char>, b: int)
    requires
        0 < b <= t.len(),
        !is_white_space(t[0]),
        !is_white_space(t[b - 1]),
        forall|i: int| b <= i < t.len() ==> is_white_space(#[trigger] t[i]),
    ensures
        trimmed(t) == t.take(b),
    decreases t.len() - b,
{
    if b == t.len() {
        assert(t.take(b) =~= t);
    } else {
        let u = t.drop_last();
        assert(u[0] == t[0]);
        assert(u[b - 1] == t[b - 1]);
        assert forall|i: int| b <= i < u.len() implies is_white_space(#[trigger] u[i]) by {
            assert(u[i] == t[i]);
        }
        lemma_trim_end(u, b);
        assert(u.take(b) =~= t.take(b));
    }
}

/// The slice of `s` without leading and trailing white space, as `str::trim` gives it.
fn trim(s: &str) -> (t: &str)
    ensures
        t@ == trimmed(s@),
{
    let len = s.unicode_len();
    let mut a: usize = 0;
    while a < len && white_space(s.get_char(a))
        invariant
            len == s@.len(),
            a <= len,
            forall|i: int| 0 <= i < a ==> is_white_space(#[trigger] s@[i]),
        decreases len - a,
    {
        a = a + 1;
    }
    proof {
        lemma_trim_start(s@, a as int);
    }
    if a == len {
        assert(s@.skip(a as int) =~= Seq::<char>::empty());
        let t = s.substring_char(len, len);
        assert(t@ =~= Seq::<char>::empty());
        return t;
    }
    let mut b: usize = len;
    while b > a + 1 && white_space(s.get_char(b - 1))
        invariant
            len == s@.len(),
            a < b <= len,
            forall|i: int| b <= i < len ==> is_white_space(#[trigger] s@[i]),
        decreases b,
    {
        b = b - 1;
    }
    proof {
        let r = s@.skip(a as int);
        assert(r[0] == s@[a as int]);
        assert(r[b - a - 1] == s@[b - 1]);
        assert forall|i: int| b - a <= i < r.len() implies is_white_space(#[trigger] r[i]) by {
            assert(r[i] == s@[i + a]);
        }
        lemma_trim_end(r, b - a);
        assert(r.take(b - a) =~= s@.subrange(a as int, b as int));
    }
    s.substring_char(a, b)
}

/// `str::to_uppercase`: the upper-case form of `s`.
#[verifier::external_body]
fn to_upper_case(s: &str) -> (u: String)
    ensures
        u@ == upper_case(s@),
{
    s.to_uppercase()
}

/// The pieces of `s` between the `;` separators, as `str::split(';')` yields them
/// (always at least one; empty pieces included).
pub open spec fn split_semicolons(s: Seq<char>) -> Seq<Seq<char>>
    decreases s.len(),
{
    if s.len() == 0 {
        seq![Seq::<char>::empty()]
    } else if s[0] == ';' {
        seq![Seq::<char>::empty()] + split_semicolons(s.skip(1))
    } else {
        let rest = split_semicolons(s.skip(1));
        rest.update(0, seq![s[0]] + rest[0])
    }
}

/// The characters of `CREATE DATABASE`.
pub open spec fn create_database() -> Seq<char> {
    seq!['C', 'R', 'E', 'A', 'T', 'E', ' ', 'D', 'A', 'T', 'A', 'B', 'A', 'S', 'E']
}

/// A trimmed statement is run: it is not empty and, upper-cased, does not start with `CREATE DATABASE`.
pub open spec fn is_runnable(statement: Seq<char>) -> bool {
    &&& statement.len() > 0
    &&& !(upper_case(statement).len() >= 15 && upper_case(statement).take(15) == create_database())
}

/// The runnable statements among `pieces`, each trimmed, in order.
pub open spec fn runnable_statements(pieces: Seq<Seq<char>>) -> Seq<Seq<char>>
    decreases pieces.len(),
{
    if pieces.len() == 0 {
        Seq::empty()
    } else {
        let rest = runnable_statements(pieces.drop_last());
        if is_runnable(trimmed(pieces.last())) {
            rest.push(trimmed(pieces.last()))
        } else {
            rest
        }
    }
}

/// The commands that the schema script `schema` runs, in order.
pub open spec fn schema_statements(schema: Seq<char>) -> Seq<Seq<char>> {
    runnable_statements(split_semicolons(schema))
}

/// Replaces the first piece of `pieces` by `p` followed by it.
pub open spec fn prepend_to_first(p: Seq<char>, pieces: Seq<Seq<char>>) -> Seq<Seq<char>> {
    pieces.update(0, p + pieces[0])
}

proof fn lemma_split_nonempty(s: Seq<char>)
    ensures
        split_semicolons(s).len() >= 1,
    decreases s.len(),
{
    if s.len() > 0 {
        lemma_split_nonempty(s.skip(1));
    }
}

/// Whether `u` begins with `CREATE DATABASE`.
fn starts_with_create_database(u: &str) -> (b: bool)
    ensures
        b == (u@.len() >= 15 && u@.take(15) == create_database()),
{
    let len = u.unicode_len();
    if len < 15 {
        return false;
    }
    let prefix: [char; 15] = ['C', 'R', 'E', 'A', 'T', 'E', ' ', 'D', 'A', 'T', 'A', 'B', 'A', 'S', 'E'];
    assert(prefix@ =~= create_database());
    let mut k: usize = 0;
    while k < 15
        invariant
            len == u@.len(),
            len >= 15,
            k <= 15,
            prefix@ == create_database(),
            forall|j: int| 0 <= j < k ==> u@[j] == create_database()[j],
        decreases 15 - k,
    {
        if u.get_char(k) != prefix[k] {
            assert(u@.take(15)[k as int] != create_database()[k as int]);
            return false;
        }
        k = k + 1;
    }
    assert(u@.take(15) =~= create_database());
    true
}

/// Whether a trimmed statement is run.
fn runnable(statement: &str) -> (b: bool)
    ensures
        b == is_runnable(statement@),
{
    if statement.unicode_len() == 0 {
        return false;
    }
    let upper = to_upper_case(statement);
    !starts_with_create_database(upper.as_str())
}

/// The commands of the schema script, in order: the pieces between `;`,
/// trimmed, leaving out empty ones and those that create a database.
pub fn schema_commands(schema: &str) -> (commands: Vec<String>)
    ensures
        commands@.map_values(|c: String| c@) == schema_statements(schema@),
{
    let len = schema.unicode_len();
    let mut commands: Vec<String> = Vec::new();
    let ghost mut done: Seq<Seq<char>> = Seq::empty();
    let mut start: usize = 0;
    let mut i: usize = 0;
    proof {
        lemma_split_nonempty(schema@);
        assert(schema@.skip(0) =~= schema@);
        assert(prepend_to_first(Seq::empty(), split_semicolons(schema@)) =~= split_semicolons(schema@));
    }
    while i < len
        invariant
            len == schema@.len(),
            start <= i <= len,
            split_semicolons(schema@) == done + prepend_to_first(
                schema@.subrange(start as int, i as int),
                split_semicolons(schema@.skip(i as int)),
            ),
            commands@.map_values(|c: String| c@) == runnable_statements(done),
        decreases len - i,
    {
        let ghost rest = schema@.skip(i as int);
        proof {
            lemma_split_nonempty(rest.skip(1));
            assert(rest.skip(1) =~= schema@.skip(i + 1));
        }
        if schema.get_char(i) == ';' {
            let piece = schema.substring_char(start, i);
            let statement = trim(piece);
            if runnable(statement) {
                commands.push(String::from_str(statement));
            }
            proof {
                let p = schema@.subrange(start as int, i as int);
                let tail = split_semicolons(schema@.skip(i + 1));
                assert(prepend_to_first(p, seq![Seq::<char>::empty()] + tail) =~= seq![p] + tail);
                assert(done.push(p) + tail =~= done + (seq![p] + tail));
                assert(done.push(p).drop_last() =~= done);
                assert(prepend_to_first(Seq::empty(), tail) =~= tail);
                assert(schema@.subrange(i + 1, i + 1) =~= Seq::<char>::empty());
                done = done.push(p);
                assert(commands@.map_values(|c: String| c@) =~= runnable_statements(done));
            }
            start = i + 1;
        } else {
            proof {
                let p = schema@.subrange(start as int, i as int);
                let tail = split_semicolons(schema@.skip(i + 1));
                assert(split_semicolons(rest) == tail.update(0, seq![rest[0]] + tail[0]));
                assert(schema@.subrange(start as int, i + 1) =~= p + seq![rest[0]]);
                assert(p + (seq![rest[0]] + tail[0]) =~= (p + seq![rest[0]]) + tail[0]);
                assert(prepend_to_first(p, tail.update(0, seq![rest[0]] + tail[0]))
                    =~= prepend_to_first(p + seq![rest[0]], tail));
            }
        }
        i = i + 1;
    }
    let piece = schema.substring_char(start, len);
    let statement = trim(piece);
    if runnable(statement) {
        commands.push(String::from_str(statement));
    }
    proof {
        let p = schema@.subrange(start as int, len as int);
        assert(schema@.skip(len as int) =~= Seq::<char>::empty());
        assert(prepend_to_first(p, seq![Seq::<char>::empty()]) =~= seq![p]);
        assert(done.push(p).drop_last() =~= done);
        assert(split_semicolons(schema@) =~= done.push(p));
        assert(commands@.map_values(|c: String| c@) =~= runnable_statements(done.push(p)));
    }
    commands
}

/// A trimmed piece neither starts nor ends with white space, and holds only
/// characters of the piece.
proof fn lemma_trimmed(s: Seq<char>)
    ensures
        trimmed(s).len() > 0 ==> !is_white_space(trimmed(s)[0]) && !is_white_space(trimmed(s).last()),
        forall|c: char| trimmed(s).contains(c) ==> s.contains(c),
    decreases s.len(),
{
    if s.len() > 0 && is_white_space(s[0]) {
        lemma_trimmed(s.skip(1));
        assert forall|c: char| s.skip(1).contains(c) implies s.contains(c) by {
            let k = choose|k: int| 0 <= k < s.skip(1).len() && s.skip(1)[k] == c;
            assert(s[k + 1] == c);
        }
    } else if s.len() > 0 && is_white_space(s.last()) {
        lemma_trimmed(s.drop_last());
        assert forall|c: char| s.drop_last().contains(c) implies s.contains(c) by {
            let k = choose|k: int| 0 <= k < s.drop_last().len() && s.drop_last()[k] == c;
            assert(s[k] == c);
        }
    }
}

/// No piece between the separators holds a `;`.
pub proof fn lemma_split_has_no_separator(s: Seq<char>)
    ensures
        forall|i: int| 0 <= i < split_semicolons(s).len() ==> !(#[trigger] split_semicolons(s)[i]).contains(';'),
    decreases s.len(),
{
    lemma_split_nonempty(s);
    if s.len() > 0 {
        lemma_split_has_no_separator(s.skip(1));
        lemma_split_nonempty(s.skip(1));
        let rest = split_semicolons(s.skip(1));
        if s[0] == ';' {
            assert forall|i: int| 0 <= i < split_semicolons(s).len() implies !(#[trigger] split_semicolons(s)[i]).contains(';') by {
                if i == 0 {
                    assert(split_semicolons(s)[0] =~= Seq::<char>::empty());
                } else {
                    assert(split_semicolons(s)[i] == rest[i - 1]);
                }
            }
        } else {
            assert forall|i: int| 0 <= i < split_semicolons(s).len() implies !(#[trigger] split_semicolons(s)[i]).contains(';') by {
                if i == 0 {
                    let first = seq![s[0]] + rest[0];
                    assert(split_semicolons(s)[0] == first);
                    if first.contains(';') {
                        let k = choose|k: int| 0 <= k < first.len() && first[k] == ';';
                        assert(k > 0);
                        assert(rest[0][k - 1] == ';');
                        assert(rest[0].contains(';'));
                    }
                } else {
                    assert(split_semicolons(s)[i] == rest[i]);
                }
            }
        }
    }
}

proof fn lemma_runnable_statements_shape(pieces: Seq<Seq<char>>)
    requires
        forall|i: int| 0 <= i < pieces.len() ==> !(#[trigger] pieces[i]).contains(';'),
    ensures
        forall|i: int| 0 <= i < runnable_statements(pieces).len() ==> {
            let c = #[trigger] runnable_statements(pieces)[i];
            &&& is_runnable(c)
            &&& !c.contains(';')
            &&& !is_white_space(c[0])
            &&& !is_white_space(c.last())
        },
    decreases pieces.len(),
{
    if pieces.len() > 0 {
        let rest = runnable_statements(pieces.drop_last());
        assert forall|i: int| 0 <= i < pieces.drop_last().len() implies !(#[trigger] pieces.drop_last()[i]).contains(';') by {
            assert(pieces.drop_last()[i] == pieces[i]);
        }
        lemma_runnable_statements_shape(pieces.drop_last());
        let t = trimmed(pieces.last());
        lemma_trimmed(pieces.last());
        assert(!pieces[pieces.len() - 1].contains(';'));
        if is_runnable(t) {
            assert forall|i: int| 0 <= i < rest.push(t).len() implies {
                let c = #[trigger] rest.push(t)[i];
                &&& is_runnable(c)
                &&& !c.contains(';')
                &&& !is_white_space(c[0])
                &&& !is_white_space(c.last())
            } by {
                if i < rest.len() {
                    assert(rest.push(t)[i] == rest[i]);
                } else {
                    assert(rest.push(t)[i] == t);
                }
            }
        }
    }
}

/// Every command of a schema script is a single statement: not empty, without
/// `;`, without white space at either end, and not a `CREATE DATABASE`.
pub proof fn lemma_schema_commands_are_statements(schema: Seq<char>)
    ensures
        forall|i: int| 0 <= i < schema_statements(schema).len() ==> {
            let c = #[trigger] schema_statements(schema)[i];
            &&& c.len() > 0
            &&& !c.contains(';')
            &&& !is_white_space(c[0])
            &&& !is_white_space(c.last())
            &&& !(upper_case(c).len() >= 15 && upper_case(c).take(15) == create_database())
        },
{
    lemma_split_has_no_separator(schema);
    lemma_runnable_statements_shape(split_semicolons(schema));
}

/// The white space that is trimmed is exactly the characters of Unicode's
/// `White_Space` property: tab, line feed, vertical tab, form feed, carriage
/// return, space, next line, no-break space, ogham space mark, the spaces
/// U+2000 to U+200A, line and paragraph separator, narrow no-break space,
/// medium mathematical space and ideographic space.
pub proof fn lemma_white_space_is_unicode_white_space(c: char)
    ensures
        is_white_space(c) <==> (
            c == '\t' || c == '\n' || c == '\u{0B}' || c == '\u{0C}' || c == '\r' || c == ' '
            || c == '\u{85}' || c == '\u{A0}' || c == '\u{1680}'
            || c == '\u{2000}' || c == '\u{2001}' || c == '\u{2002}' || c == '\u{2003}'
            || c == '\u{2004}' || c == '\u{2005}' || c == '\u{2006}' || c == '\u{2007}'
            || c == '\u{2008}' || c == '\u{2009}' || c == '\u{200A}'
            || c == '\u{2028}' || c == '\u{2029}' || c == '\u{202F}' || c == '\u{205F}'
            || c == '\u{3000}'),
{
}

/// A trimmed statement is run exactly when it is not empty and its upper-case
/// form does not begin with `CREATE DATABASE`: comments, blank lines inside it
/// and every other statement are run.
pub proof fn lemma_runnable_exactly_unless_create_database(statement: Seq<char>)
    ensures
        is_runnable(statement) <==> (
            statement.len() > 0
            && !(upper_case(statement).len() >= 15 && upper_case(statement).take(15) == "CREATE DATABASE"@)),
{
    reveal_strlit("CREATE DATABASE");
    assert(create_database() =~= "CREATE DATABASE"@);
}

/// `s[a..b]` is `s` without white space at either end: everything before `a`
/// and from `b` on is white space, and a non-empty stretch begins and ends
/// with a character that is not.
pub open spec fn strips_edges(s: Seq<char>, a: int, b: int) -> bool {
    &&& 0 <= a <= b <= s.len()
    &&& forall|i: int| 0 <= i < a ==> is_white_space(#[trigger] s[i])
    &&& forall|i: int| b <= i < s.len() ==> is_white_space(#[trigger] s[i])
    &&& a < b ==> !is_white_space(s[a]) && !is_white_space(s[b - 1])
}

proof fn trim_bounds(s: Seq<char>) -> (r: (int, int))
    ensures
        strips_edges(s, r.0, r.1),
        trimmed(s) == s.subrange(r.0, r.1),
    decreases s.len(),
{
    if s.len() > 0 && is_white_space(s[0]) {
        let t = s.skip(1);
        let (a, b) = trim_bounds(t);
        assert(t.subrange(a, b) =~= s.subrange(a + 1, b + 1));
        assert forall|i: int| 0 <= i < a + 1 implies is_white_space(#[trigger] s[i]) by {
            if i > 0 {
                assert(s[i] == t[i - 1]);
            }
        }
        assert forall|i: int| b + 1 <= i < s.len() implies is_white_space(#[trigger] s[i]) by {
            assert(s[i] == t[i - 1]);
        }
        if a < b {
            assert(s[a + 1] == t[a]);
            assert(s[b] == t[b - 1]);
        }
        (a + 1, b + 1)
    } else if s.len() > 0 && is_white_space(s.last()) {
        let t = s.drop_last();
        let (a, b) = trim_bounds(t);
        assert(t.subrange(a, b) =~= s.subrange(a, b));
        assert forall|i: int| 0 <= i < a implies is_white_space(#[trigger] s[i]) by {
            assert(s[i] == t[i]);
        }
        assert forall|i: int| b <= i < s.len() implies is_white_space(#[trigger] s[i]) by {
            if i < s.len() - 1 {
                assert(s[i] == t[i]);
            }
        }
        if a < b {
            assert(s[a] == t[a]);
            assert(s[b - 1] == t[b - 1]);
        }
        (a, b)
    } else {
        assert(s.subrange(0, s.len() as int) =~= s);
        (0, s.len() as int)
    }
}

/// Trimming removes white space at both ends and nothing else: the result is
/// a stretch of the text, everything before and after it is white space, and
/// it begins and ends with a character that is not.
pub proof fn lemma_trimmed_strips_only_edges(s: Seq<char>)
    ensures
        exists|a: int, b: int| strips_edges(s, a, b) && trimmed(s) == #[trigger] s.subrange(a, b),
{
    let (a, b) = trim_bounds(s);
    assert(strips_edges(s, a, b) && trimmed(s) == s.subrange(a, b));
}

/// The commands of a list of pieces are those of all but the last piece,
/// followed by the last piece trimmed when it is not empty and does not begin
/// (upper-cased) with `CREATE DATABASE`; no piece is left out otherwise.
pub proof fn lemma_statements_keep_every_other_piece(pieces: Seq<Seq<char>>, last: Seq<char>)
    ensures
        ({
            let t = trimmed(last);
            let keep = t.len() > 0
                && !(upper_case(t).len() >= 15 && upper_case(t).take(15) == "CREATE DATABASE"@);
            runnable_statements(pieces.push(last))
                == if keep { runnable_statements(pieces).push(t) } else { runnable_statements(pieces) }
        }),
{
    lemma_runnable_exactly_unless_create_database(trimmed(last));
    assert(pieces.push(last).drop_last() =~= pieces);
}

/// The pieces between separators, joined again with `;`, give back the text.
pub proof fn lemma_split_pieces_join_to_text(s: Seq<char>)
    ensures
        joined(split_semicolons(s)) == s,
    decreases s.len(),
{
    lemma_split_nonempty(s);
    if s.len() > 0 {
        let rest = split_semicolons(s.skip(1));
        lemma_split_pieces_join_to_text(s.skip(1));
        lemma_split_nonempty(s.skip(1));
        if s[0] == ';' {
            let ps = seq![Seq::<char>::empty()] + rest;
            assert(ps.skip(1) =~= rest);
            assert(ps[0] =~= Seq::<char>::empty());
            assert(s =~= seq![';'] + s.skip(1));
        } else {
            let ps = rest.update(0, seq![s[0]] + rest[0]);
            if rest.len() == 1 {
                assert(ps =~= seq![seq![s[0]] + rest[0]]);
                assert(s =~= seq![s[0]] + s.skip(1));
            } else {
                assert(ps.skip(1) =~= rest.skip(1));
                assert(s =~= seq![s[0]] + s.skip(1));
                assert(joined(ps) =~= (seq![s[0]] + rest[0]) + seq![';'] + joined(rest.skip(1)));
            }
        }
    }
}

/// Pieces joined with `;` between them.
pub open spec fn joined(pieces: Seq<Seq<char>>) -> Seq<char>
    decreases pieces.len(),
{
    if pieces.len() == 0 {
        Seq::empty()
    } else if pieces.len() == 1 {
        pieces[0]
    } else {
        pieces[0] + seq![';'] + joined(pieces.skip(1))
    }
}

} // verus!
