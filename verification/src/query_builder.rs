//! SQL text assembly: raw fragments appended verbatim, identifiers wrapped
//! in double quotes with embedded quotes doubled, and `?` positional
//! placeholders. The quoting is proved to survive the engine parser's
//! unquoting for every identifier.

use vstd::prelude::*;
use vstd::string::StrSliceExecFns;
use vstd::string::StringExecFns;

use crate::error::Error;

verus! {

/// How one identifier character is written inside a quoted identifier:
/// a double quote is doubled, everything else stands as itself.
pub open spec fn escape_char(c: char) -> Seq<char> {
    if c == '"' {
        seq!['"', '"']
    } else {
        seq![c]
    }
}

/// The body of a quoted identifier: every character escaped.
pub open spec fn escaped_quotes(s: Seq<char>) -> Seq<char>
    decreases s.len(),
{
    if s.len() == 0 {
        Seq::empty()
    } else {
        escape_char(s[0]) + escaped_quotes(s.subrange(1, s.len() as int))
    }
}

/// The full quoted form: a double quote, the escaped body, a double quote.
pub open spec fn quoted_identifier(s: Seq<char>) -> Seq<char> {
    seq!['"'] + escaped_quotes(s) + seq!['"']
}

/// The engine parser's reading of a quoted-identifier body: each doubled
/// quote stands for one quote; a lone quote inside the body is malformed.
pub open spec fn unescape_quotes(s: Seq<char>) -> Option<Seq<char>>
    decreases s.len(),
{
    if s.len() == 0 {
        Some(Seq::empty())
    } else if s[0] == '"' {
        if s.len() >= 2 && s[1] == '"' {
            match unescape_quotes(s.subrange(2, s.len() as int)) {
                Some(r) => Some(seq!['"'] + r),
                None => None,
            }
        } else {
            None
        }
    } else {
        match unescape_quotes(s.subrange(1, s.len() as int)) {
            Some(r) => Some(seq![s[0]] + r),
            None => None,
        }
    }
}

/// The engine parser's reading of a whole quoted identifier: surrounding
/// quotes stripped, the body unescaped.
pub open spec fn unquote_identifier(q: Seq<char>) -> Option<Seq<char>> {
    if q.len() >= 2 && q[0] == '"' && q[q.len() - 1] == '"' {
        unescape_quotes(q.subrange(1, q.len() - 1))
    } else {
        None
    }
}

proof fn lemma_escaped_snoc(s: Seq<char>, c: char)
    ensures
        escaped_quotes(s + seq![c]) == escaped_quotes(s) + escape_char(c),
    decreases s.len(),
{
    if s.len() == 0 {
        let sc = s + seq![c];
        assert(sc.subrange(1, sc.len() as int) =~= Seq::<char>::empty());
        assert(escaped_quotes(Seq::<char>::empty()) == Seq::<char>::empty());
        assert(escaped_quotes(sc) == escape_char(c) + escaped_quotes(Seq::<char>::empty()));
        assert(escaped_quotes(s + seq![c]) =~= escaped_quotes(s) + escape_char(c));
    } else {
        assert((s + seq![c]).subrange(1, (s + seq![c]).len() as int) =~= s.subrange(
            1,
            s.len() as int,
        ) + seq![c]);
        lemma_escaped_snoc(s.subrange(1, s.len() as int), c);
        assert(escaped_quotes(s + seq![c]) =~= escaped_quotes(s) + escape_char(c));
    }
}

proof fn lemma_unescape_escaped(s: Seq<char>)
    ensures
        unescape_quotes(escaped_quotes(s)) == Some(s),
    decreases s.len(),
{
    if s.len() == 0 {
    } else {
        let rest = s.subrange(1, s.len() as int);
        lemma_unescape_escaped(rest);
        let e = escaped_quotes(s);
        if s[0] == '"' {
            assert(e.subrange(2, e.len() as int) =~= escaped_quotes(rest));
            assert(seq!['"'] + rest =~= s);
        } else {
            assert(e.subrange(1, e.len() as int) =~= escaped_quotes(rest));
            assert(seq![s[0]] + rest =~= s);
        }
    }
}

/// Identifier quoting round-trips through the engine parser's unquoting:
/// whatever the name holds, embedded quotes, white space or reserved words,
/// the parser reads back exactly the name that was quoted.
pub proof fn lemma_identifier_quoting_round_trip(s: Seq<char>)
    ensures
        unquote_identifier(quoted_identifier(s)) == Some(s),
{
    let q = quoted_identifier(s);
    assert(q.len() >= 2 && q[0] == '"' && q[q.len() - 1] == '"');
    assert(q.subrange(1, q.len() - 1) =~= escaped_quotes(s));
    lemma_unescape_escaped(s);
}

/// Accumulates one statement's SQL text. Its abstract value is the
/// character sequence accumulated so far.
#[derive(Debug)]
pub struct DuckDBQueryBuilder {
    sql: String,
}

impl View for DuckDBQueryBuilder {
    type V = Seq<char>;

    closed spec fn view(&self) -> Seq<char> {
        self.sql@
    }
}

impl DuckDBQueryBuilder {
    /// An empty builder.
    pub fn new() -> (r: Self)
        ensures
            r@ == Seq::<char>::empty(),
    {
        DuckDBQueryBuilder { sql: String::new() }
    }

    /// Append a raw SQL fragment verbatim.
    pub fn push_sql(&mut self, sql: &str)
        ensures
            final(self)@ == old(self)@ + sql@,
    {
        self.sql.append(sql);
    }

    /// Append an identifier, wrapped in double quotes with embedded quotes
    /// doubled. Never fails; the `Result` mirrors the builder interface of
    /// the query layer above.
    pub fn push_identifier(&mut self, identifier: &str) -> (r: Result<(), Error>)
        ensures
            r is Ok,
            final(self)@ == old(self)@ + quoted_identifier(identifier@),
    {
        let ghost orig: Seq<char> = self.sql@;
        proof {
            reveal_strlit("\"");
            assert(("\"")@ =~= seq!['"']);
        }
        self.sql.append("\"");
        let n = identifier.unicode_len();
        let mut i: usize = 0;
        while i < n
            invariant
                n == identifier@.len(),
                0 <= i <= n,
                self.sql@ == orig + seq!['"'] + escaped_quotes(identifier@.subrange(0, i as int)),
            decreases n - i,
        {
            let c = identifier.get_char(i);
            if c == '"' {
                proof {
                    reveal_strlit("\"\"");
                    assert(("\"\"")@ =~= seq!['"', '"']);
                }
                self.sql.append("\"\"");
            } else {
                let piece = identifier.substring_char(i, i + 1);
                assert(piece@ =~= seq![identifier@[i as int]]);
                self.sql.append(piece);
            }
            proof {
                lemma_escaped_snoc(identifier@.subrange(0, i as int), identifier@[i as int]);
                assert(identifier@.subrange(0, i as int + 1) =~= identifier@.subrange(0, i as int)
                    + seq![identifier@[i as int]]);
                assert(self.sql@ =~= orig + seq!['"'] + escaped_quotes(
                    identifier@.subrange(0, i as int + 1),
                ));
            }
            i = i + 1;
        }
        self.sql.append("\"");
        proof {
            assert(identifier@.subrange(0, n as int) =~= identifier@);
            assert(self.sql@ =~= orig + quoted_identifier(identifier@));
        }
        Ok(())
    }

    /// Append the positional placeholder token. Its N-th use must line up
    /// with the N-th value pushed into the bind collector for the same
    /// statement.
    pub fn push_bind_param(&mut self)
        ensures
            final(self)@ == old(self)@ + seq!['?'],
    {
        proof {
            reveal_strlit("?");
            assert(("?")@ =~= seq!['?']);
        }
        self.sql.append("?");
    }

    /// The accumulated text; consumes the builder.
    pub fn finish(self) -> (r: String)
        ensures
            r@ == self@,
    {
        self.sql
    }
}

} // verus!
