use vstd::prelude::*;
use itertools::Itertools;
use crate::request::RequestContext;

verus! {

/// The entries joined with a newline between each adjacent pair, and
/// nothing before the first or after the last.
pub open spec fn joined(ss: Seq<Seq<char>>) -> Seq<char>
    decreases ss.len(),
{
    if ss.len() == 0 {
        Seq::<char>::empty()
    } else if ss.len() == 1 {
        ss[0]
    } else {
        ss[0] + "\n"@ + joined(ss.drop_first())
    }
}

/// Where entry i begins inside the joined block: after the i earlier
/// entries and the one separator behind each of them.
pub open spec fn entry_offset(ss: Seq<Seq<char>>, i: int) -> int
    decreases i,
{
    if i <= 0 {
        0
    } else {
        ss[0].len() + 1 + entry_offset(ss.drop_first(), i - 1)
    }
}

/// Joining never tears an entry: each one stands whole, at its offset,
/// inside the joined block, in insertion order.
pub proof fn lemma_joined_keeps_entries_whole(ss: Seq<Seq<char>>, i: int)
    requires
        0 <= i < ss.len(),
    ensures
        0 <= entry_offset(ss, i),
        entry_offset(ss, i) + ss[i].len() <= joined(ss).len(),
        joined(ss).subrange(entry_offset(ss, i), entry_offset(ss, i) + ss[i].len() as int)
            == ss[i],
    decreases i,
{
    reveal_strlit("\n");
    if i == 0 {
        if ss.len() == 1 {
            assert(joined(ss).subrange(0, ss[0].len() as int) =~= ss[0]);
        } else {
            assert(joined(ss) == ss[0] + "\n"@ + joined(ss.drop_first()));
            assert(joined(ss).subrange(0, ss[0].len() as int) =~= ss[0]);
        }
    } else {
        let rest = ss.drop_first();
        lemma_joined_keeps_entries_whole(rest, i - 1);
        let off = entry_offset(ss, i);
        let offr = entry_offset(rest, i - 1);
        assert(off == ss[0].len() + 1 + offr);
        assert(ss[i] == rest[i - 1]);
        assert(joined(ss) == ss[0] + "\n"@ + joined(rest));
        assert(joined(ss).len() == ss[0].len() + 1 + joined(rest).len());
        assert(off + ss[i].len() <= joined(ss).len());
        assert(joined(ss).subrange(off, off + ss[i].len() as int)
            =~= joined(rest).subrange(offr, offr + rest[i - 1].len() as int));
    }
}

/// An HTTP response as this library sees it: a status code and a body.
#[derive(Debug, PartialEq, Eq)]
pub struct HttpResponse {
    pub status: u16,
    pub body: String,
}

/// Relies on itertools::Itertools::join: the elements' Display renderings
/// with the separator between each adjacent pair, and nothing before the
/// first or after the last; a String renders as itself.
#[verifier::external_body]
fn join_entries(entries: &Vec<String>) -> (r: String)
    ensures
        r@ == joined(entries.deep_view()),
{
    entries.iter().join("\n")
}

/// Post-response hook: drain the request's log buffer and decide the one
/// write owed to the log file. The response always passes through
/// unchanged; a request without pending entries asks for no write at all,
/// and any other leaves one block, its entries joined by newlines.
pub fn finalize(req: &mut RequestContext, res: HttpResponse) -> (r: (HttpResponse, Option<String>))
    ensures
        r.0 == res,
        !final(req).has_store(),
        final(req).pending() == Seq::<Seq<char>>::empty(),
        final(req).method == old(req).method,
        final(req).path == old(req).path,
        old(req).pending().len() == 0 ==> r.1 is None,
        match r.1 {
            Some(block) => block@ == joined(old(req).pending()),
            None => old(req).pending().len() == 0,
        },
{
    let entries = req.drain();
    if entries.len() == 0 {
        proof {
            assert(entries.deep_view().len() == entries@.len());
        }
        (res, None)
    } else {
        let block = join_entries(&entries);
        (res, Some(block))
    }
}

/// The write to perform once the file lock was attempted: a failed
/// acquisition skips the write entirely, a successful one writes the
/// block exactly as it stands.
pub fn write_action(block: String, lock_acquired: bool) -> (r: Option<String>)
    ensures
        lock_acquired ==> r == Some(block),
        !lock_acquired ==> r is None,
{
    if lock_acquired {
        Some(block)
    } else {
        None
    }
}

} // verus!
