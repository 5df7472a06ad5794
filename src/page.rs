use vstd::prelude::*;

verus! {

/// The window of `s` that starts `offset` items in and holds at most `limit` items.
pub open spec fn page_of<T>(s: Seq<T>, offset: int, limit: int) -> Seq<T> {
    let start = if offset < s.len() { offset } else { s.len() as int };
    let end = if start + limit < s.len() { start + limit } else { s.len() as int };
    s.subrange(start, end)
}

} // verus!
