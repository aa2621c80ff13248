use vstd::prelude::*;
use vstd::string::StringExecFns;

verus! {

/// A per-call trace sink: records the normalized query text so operators can
/// inspect what was actually handed to the parser.
pub struct Qtrace {
    pub replaced_query: Option<String>,
}

impl Qtrace {
    pub fn new() -> (r: Self)
        ensures
            r.replaced_query is None,
    {
        Qtrace { replaced_query: None }
    }

    /// Report the normalized query text to this sink.
    pub fn set_replaced_query(&mut self, query: &str)
        ensures
            final(self).replaced_query matches Some(s) && s@ == query@,
    {
        self.replaced_query = Some(String::from_str(query));
    }
}

/// Whether the sink, where one was supplied, came to hold the text `q`.
pub open spec fn trace_reports(before: Option<Qtrace>, after: Option<Qtrace>, q: Seq<char>) -> bool {
    match before {
        Some(_) => after matches Some(t) && t.replaced_query matches Some(s) && s@ == q,
        None => after is None,
    }
}

/// Report the normalized query text to the sink, where one is supplied; a
/// missing sink is left as it is.
pub(crate) fn notify_replaced_query(qtrace: &mut Option<Qtrace>, query: &str)
    ensures
        trace_reports(*old(qtrace), *final(qtrace), query@),
{
    let mut taken: Option<Qtrace> = None;
    core::mem::swap(qtrace, &mut taken);
    match taken {
        Some(mut t) => {
            t.set_replaced_query(query);
            *qtrace = Some(t);
        },
        None => {},
    }
}

} // verus!
