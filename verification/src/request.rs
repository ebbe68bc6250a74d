use vstd::prelude::*;
use vstd::string::StringExecFns;
use crate::logging::Loggable;
use crate::logging::Logger;
use crate::logging::AutoLogger;
use crate::logging::timestamped;
use crate::logging::now_asctime;

verus! {

/// The ordered buffer of log entries pending for one in-flight request.
pub struct Logs {
    entries: Vec<String>,
}

impl View for Logs {
    type V = Seq<Seq<char>>;

    closed spec fn view(&self) -> Seq<Seq<char>> {
        self.entries.deep_view()
    }
}

impl Logs {
    /// An empty buffer.
    pub fn new() -> (r: Logs)
        ensures
            r@ == Seq::<Seq<char>>::empty(),
    {
        let entries: Vec<String> = Vec::new();
        let r = Logs { entries };
        proof {
            assert(r@ =~= Seq::<Seq<char>>::empty());
        }
        r
    }

    /// Push one entry, rendered, at the end of the buffer.
    pub fn append<L: Loggable>(&mut self, entry: &L)
        ensures
            final(self)@ == old(self)@.push(entry.log_entry_spec()),
    {
        let line = entry.to_log_entry();
        self.entries.push(line);
        proof {
            assert(self@ =~= old(self)@.push(entry.log_entry_spec()));
        }
    }

    /// Give the buffer up, yielding its entries in insertion order.
    pub fn extract(self) -> (r: Vec<String>)
        ensures
            r.deep_view() == self@,
    {
        self.entries
    }
}

/// What the library reads of one in-flight HTTP request: its method, its
/// path, and the request-scoped slot that may hold its pending log buffer.
pub struct RequestContext {
    pub method: String,
    pub path: String,
    /// The request-scoped slot for the pending log buffer, absent until
    /// the first entry arrives.
    pub logs: Option<Logs>,
}

impl RequestContext {
    /// The entries pending in this request's buffer, oldest first; empty
    /// when no buffer is attached.
    pub closed spec fn pending(&self) -> Seq<Seq<char>> {
        match self.logs {
            Some(l) => l@,
            None => Seq::<Seq<char>>::empty(),
        }
    }

    /// Whether a log buffer is attached to the request.
    pub closed spec fn has_store(&self) -> bool {
        self.logs is Some
    }

    /// A fresh request with no log buffer attached.
    pub fn new(method: String, path: String) -> (r: RequestContext)
        ensures
            r.method == method,
            r.path == path,
            !r.has_store(),
            r.pending() == Seq::<Seq<char>>::empty(),
    {
        RequestContext { method, path, logs: None }
    }

    /// Append one rendered entry to the request's buffer, first creating
    /// and attaching the buffer if none exists yet.
    pub fn append(&mut self, entry: String)
        ensures
            final(self).has_store(),
            final(self).pending() == old(self).pending().push(entry@),
            final(self).method == old(self).method,
            final(self).path == old(self).path,
    {
        if self.logs.is_none() {
            self.logs = Some(Logs::new());
        }
        match &mut self.logs {
            Some(l) => l.append(&entry),
            None => (),
        }
    }

    /// Detach the buffer and yield its entries in insertion order; an
    /// absent buffer yields no entries.
    pub fn drain(&mut self) -> (r: Vec<String>)
        ensures
            r.deep_view() == old(self).pending(),
            !final(self).has_store(),
            final(self).pending() == Seq::<Seq<char>>::empty(),
            final(self).method == old(self).method,
            final(self).path == old(self).path,
    {
        let taken = self.logs.take();
        match taken {
            Some(l) => l.extract(),
            None => {
                let r: Vec<String> = Vec::new();
                proof {
                    assert(r.deep_view() =~= Seq::<Seq<char>>::empty());
                }
                r
            },
        }
    }
}

/// A request renders as its method and its path, one space between them.
impl Loggable for RequestContext {
    open spec fn log_entry_spec(&self) -> Seq<char> {
        self.method@ + " "@ + self.path@
    }

    fn to_log_entry(&self) -> (r: String) {
        let mut s = self.method.clone();
        s.append(" ");
        s.append(self.path.as_str());
        s
    }
}

/// A request accepts a line by stamping it with the current time and
/// appending it to its own buffer.
impl Logger for RequestContext {
    open spec fn logged(&self) -> Seq<Seq<char>> {
        self.pending()
    }

    open spec fn stores_as(&self, line: Seq<char>, entry: Seq<char>) -> bool {
        exists|ts: Seq<char>| entry == timestamped(ts, line)
    }

    fn log<L: Loggable>(&mut self, entry: &L) {
        let ts = now_asctime();
        let line = entry.to_log_entry();
        let mut full = String::new();
        full.append("[");
        full.append(ts.as_str());
        full.append("] ");
        full.append(line.as_str());
        proof {
            assert(full@ =~= timestamped(ts@, entry.log_entry_spec()));
        }
        self.append(full);
        proof {
            assert(old(self).stores_as(
                entry.log_entry_spec(),
                timestamped(ts@, entry.log_entry_spec()),
            ));
        }
    }
}

/// Pre-request hook: the request logs a rendering of itself, so that one
/// timestamped entry holding its method and path joins its buffer.
pub fn request_logger(req: &mut RequestContext)
    ensures
        exists|ts: Seq<char>|
            final(req).pending() == old(req).pending().push(
                #[trigger] timestamped(ts, old(req).log_entry_spec()),
            ),
{
    req.autolog();
    proof {
        let e = choose|e: Seq<char>|
            req.logged() == old(req).logged().push(e)
            && #[trigger] old(req).stores_as(old(req).log_entry_spec(), e);
        let ts = choose|ts: Seq<char>| e == timestamped(ts, old(req).log_entry_spec());
        assert(req.pending() == old(req).pending().push(
            timestamped(ts, old(req).log_entry_spec()),
        ));
    }
}

} // verus!
