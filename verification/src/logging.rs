use vstd::prelude::*;

verus! {

/// A value that can be rendered as a single log line.
pub trait Loggable {
    /// The line this value renders to.
    spec fn log_entry_spec(&self) -> Seq<char>;

    /// Render this value as a single log line.
    fn to_log_entry(&self) -> (r: String)
        ensures
            r@ == self.log_entry_spec(),
    ;
}

/// A plain string renders as itself.
impl Loggable for String {
    open spec fn log_entry_spec(&self) -> Seq<char> {
        self@
    }

    fn to_log_entry(&self) -> (r: String) {
        self.clone()
    }
}

/// The form of a stored entry: a line behind a bracketed timestamp.
pub open spec fn timestamped(ts: Seq<char>, line: Seq<char>) -> Seq<char> {
    "["@ + ts + "] "@ + line
}

/// Relies on time::now_utc and time::Tm::asctime: the current UTC time,
/// rendered in asctime form. The result depends on the clock, so nothing
/// is stated of its value.
#[verifier::external_body]
pub(crate) fn now_asctime() -> (r: String) {
    format!("{}", time::now_utc().asctime())
}

/// A value that can accept rendered log lines.
pub trait Logger {
    /// The entries this logger holds, oldest first.
    spec fn logged(&self) -> Seq<Seq<char>>;

    /// Which stored entry may stand for a given accepted line.
    spec fn stores_as(&self, line: Seq<char>, entry: Seq<char>) -> bool;

    /// Accept one loggable value: render it and store the rendering.
    fn log<L: Loggable>(&mut self, entry: &L)
        ensures
            exists|e: Seq<char>|
                final(self).logged() == old(self).logged().push(e)
                && #[trigger] old(self).stores_as(entry.log_entry_spec(), e),
    ;
}

/// A value that is at once a logger and loggable, so it can log itself.
pub trait AutoLogger: Logger + Loggable {
    /// Render self, then store the rendering in self.
    fn autolog(&mut self)
        ensures
            exists|e: Seq<char>|
                final(self).logged() == old(self).logged().push(e)
                && #[trigger] old(self).stores_as(old(self).log_entry_spec(), e),
    ;
}

impl<T: Logger + Loggable> AutoLogger for T {
    fn autolog(&mut self) {
        let line = self.to_log_entry();
        self.log(&line);
    }
}

/// A logger that keeps accepted lines unchanged in a buffer, standing in
/// for an arbitrary downstream sink.
pub struct BufferLogger {
    lines: Vec<String>,
}

impl BufferLogger {
    /// An empty buffer.
    pub fn new() -> (r: BufferLogger)
        ensures
            r.logged() == Seq::<Seq<char>>::empty(),
    {
        let lines: Vec<String> = Vec::new();
        let r = BufferLogger { lines };
        proof {
            assert(r.logged() =~= Seq::<Seq<char>>::empty());
        }
        r
    }

    /// The accepted lines, oldest first.
    pub fn lines(&self) -> (r: &Vec<String>)
        ensures
            r.deep_view() == self.logged(),
    {
        &self.lines
    }
}

/// A buffer stores every line exactly as it was accepted.
impl Logger for BufferLogger {
    closed spec fn logged(&self) -> Seq<Seq<char>> {
        self.lines.deep_view()
    }

    open spec fn stores_as(&self, line: Seq<char>, entry: Seq<char>) -> bool {
        entry == line
    }

    fn log<L: Loggable>(&mut self, entry: &L) {
        let line = entry.to_log_entry();
        self.lines.push(line);
        proof {
            assert(self.logged() =~= old(self).logged().push(entry.log_entry_spec()));
            assert(old(self).stores_as(entry.log_entry_spec(), entry.log_entry_spec()));
        }
    }
}

} // verus!
