//! LIMIT/OFFSET clause composition: four static shapes, plus the dynamic
//! shape used where type erasure forces a runtime representation. The two
//! paths are proved to render identical text for equal inputs.

use vstd::prelude::*;
use vstd::string::StringExecFns;

use crate::error::Error;
use crate::query_builder::DuckDBQueryBuilder;
use crate::strutil::dec_int;
use crate::strutil::push_dec_i64;

verus! {

/// The closed set of statically-known LIMIT/OFFSET shapes.
#[derive(Debug, Clone, Copy, PartialEq, Eq, Structural)]
pub enum LimitOffsetClause {
    NoLimitNoOffset,
    LimitOnly(i64),
    OffsetOnly(i64),
    LimitAndOffset(i64, i64),
}

/// The dynamic shape: whichever of limit and offset is present is decided
/// at run time.
#[derive(Debug, Clone, Copy, PartialEq, Eq, Structural)]
pub struct BoxedLimitOffsetClause {
    pub limit: Option<i64>,
    pub offset: Option<i64>,
}

/// The limit a static shape carries, if any.
pub open spec fn limit_of(c: LimitOffsetClause) -> Option<i64> {
    match c {
        LimitOffsetClause::NoLimitNoOffset => None,
        LimitOffsetClause::LimitOnly(l) => Some(l),
        LimitOffsetClause::OffsetOnly(_) => None,
        LimitOffsetClause::LimitAndOffset(l, _) => Some(l),
    }
}

/// The offset a static shape carries, if any.
pub open spec fn offset_of(c: LimitOffsetClause) -> Option<i64> {
    match c {
        LimitOffsetClause::NoLimitNoOffset => None,
        LimitOffsetClause::LimitOnly(_) => None,
        LimitOffsetClause::OffsetOnly(o) => Some(o),
        LimitOffsetClause::LimitAndOffset(_, o) => Some(o),
    }
}

/// The text of a limit fragment.
pub open spec fn limit_fragment(n: int) -> Seq<char> {
    "LIMIT "@ + dec_int(n)
}

/// The text of an offset fragment.
pub open spec fn offset_fragment(n: int) -> Seq<char> {
    "OFFSET "@ + dec_int(n)
}

/// What the dynamic shape renders: whichever fragment is present, limit
/// before offset, separated by one space; nothing when both are absent.
pub open spec fn rendered_dynamic(limit: Option<i64>, offset: Option<i64>) -> Seq<char> {
    match (limit, offset) {
        (Some(l), Some(o)) => limit_fragment(l as int) + seq![' '] + offset_fragment(o as int),
        (Some(l), None) => limit_fragment(l as int),
        (None, Some(o)) => offset_fragment(o as int),
        (None, None) => Seq::<char>::empty(),
    }
}

/// What each static shape renders: the empty text, one fragment, or the
/// limit fragment then the offset fragment in fixed order.
pub open spec fn rendered_static(c: LimitOffsetClause) -> Seq<char> {
    match c {
        LimitOffsetClause::NoLimitNoOffset => Seq::<char>::empty(),
        LimitOffsetClause::LimitOnly(l) => limit_fragment(l as int),
        LimitOffsetClause::OffsetOnly(o) => offset_fragment(o as int),
        LimitOffsetClause::LimitAndOffset(l, o) => limit_fragment(l as int) + seq![' ']
            + offset_fragment(o as int),
    }
}

/// The static and dynamic paths render byte-identical output for
/// equivalent limit/offset inputs.
pub proof fn lemma_boxed_renders_like_static(c: LimitOffsetClause)
    ensures
        rendered_dynamic(limit_of(c), offset_of(c)) == rendered_static(c),
{
}

/// Append `LIMIT ` and the decimal value to `s`.
fn push_limit_fragment(s: &mut String, l: i64)
    ensures
        final(s)@ == old(s)@ + limit_fragment(l as int),
{
    proof {
        reveal_strlit("LIMIT ");
    }
    s.append("LIMIT ");
    push_dec_i64(s, l);
    proof {
        assert(final(s)@ =~= old(s)@ + limit_fragment(l as int));
    }
}

/// Append `OFFSET ` and the decimal value to `s`.
fn push_offset_fragment(s: &mut String, o: i64)
    ensures
        final(s)@ == old(s)@ + offset_fragment(o as int),
{
    proof {
        reveal_strlit("OFFSET ");
    }
    s.append("OFFSET ");
    push_dec_i64(s, o);
    proof {
        assert(final(s)@ =~= old(s)@ + offset_fragment(o as int));
    }
}

/// Render whichever of `limit` and `offset` is present, limit first.
fn render_optional_pair(limit: Option<i64>, offset: Option<i64>) -> (r: String)
    ensures
        r@ == rendered_dynamic(limit, offset),
{
    let mut s = String::new();
    match (limit, offset) {
        (Some(l), Some(o)) => {
            push_limit_fragment(&mut s, l);
            proof {
                reveal_strlit(" ");
                assert((" ")@ =~= seq![' ']);
            }
            s.append(" ");
            push_offset_fragment(&mut s, o);
            proof {
                assert(s@ =~= rendered_dynamic(limit, offset));
            }
        },
        (Some(l), None) => {
            push_limit_fragment(&mut s, l);
        },
        (None, Some(o)) => {
            push_offset_fragment(&mut s, o);
        },
        (None, None) => {},
    }
    s
}

impl BoxedLimitOffsetClause {
    /// Render this dynamic clause into the query text: whichever fragment
    /// is present, limit before offset.
    pub fn walk_ast(&self, out: &mut DuckDBQueryBuilder) -> (r: Result<(), Error>)
        ensures
            r is Ok,
            final(out)@ == old(out)@ + rendered_dynamic(self.limit, self.offset),
    {
        let text = render_optional_pair(self.limit, self.offset);
        out.push_sql(text.as_str());
        Ok(())
    }
}

impl LimitOffsetClause {
    /// Render this static shape into the query text.
    pub fn walk_ast(&self, out: &mut DuckDBQueryBuilder) -> (r: Result<(), Error>)
        ensures
            r is Ok,
            final(out)@ == old(out)@ + rendered_static(*self),
    {
        let limit = match self {
            LimitOffsetClause::LimitOnly(l) => Some(*l),
            LimitOffsetClause::LimitAndOffset(l, _) => Some(*l),
            _ => None,
        };
        let offset = match self {
            LimitOffsetClause::OffsetOnly(o) => Some(*o),
            LimitOffsetClause::LimitAndOffset(_, o) => Some(*o),
            _ => None,
        };
        let text = render_optional_pair(limit, offset);
        out.push_sql(text.as_str());
        Ok(())
    }

    /// Erase this static shape into the dynamic one. Rendering is
    /// unchanged by the erasure.
    pub fn into_boxed(self) -> (b: BoxedLimitOffsetClause)
        ensures
            b.limit == limit_of(self),
            b.offset == offset_of(self),
            rendered_dynamic(b.limit, b.offset) == rendered_static(self),
    {
        let b = match self {
            LimitOffsetClause::NoLimitNoOffset => BoxedLimitOffsetClause {
                limit: None,
                offset: None,
            },
            LimitOffsetClause::LimitOnly(l) => BoxedLimitOffsetClause {
                limit: Some(l),
                offset: None,
            },
            LimitOffsetClause::OffsetOnly(o) => BoxedLimitOffsetClause {
                limit: None,
                offset: Some(o),
            },
            LimitOffsetClause::LimitAndOffset(l, o) => BoxedLimitOffsetClause {
                limit: Some(l),
                offset: Some(o),
            },
        };
        proof {
            lemma_boxed_renders_like_static(self);
        }
        b
    }
}

} // verus!
