//! The one-time record of the callback listener's port, and the decisions
//! made when a caller asks for the callback URL.
//!
//! The caller holds a `ServerSlot` under a lock for the whole of one
//! request: it asks `plan`, binds a listener when told to, and reports the
//! outcome with `record_bind`.
use vstd::prelude::*;
use crate::callback::CALLBACK_PATH;
use crate::text::{decimal, push_decimal};

verus! {

/// Scheme and loopback host of the callback URL.
pub const LOOPBACK_ORIGIN: &'static str = "http://127.0.0.1:";

/// The callback URL for a listener bound to `port`.
pub open spec fn callback_url_text(port: u16) -> Seq<char> {
    LOOPBACK_ORIGIN@ + decimal(port as nat) + CALLBACK_PATH@
}

/// Builds `http://127.0.0.1:<port>/oauth/callback`.
pub fn callback_url(port: u16) -> (r: String)
    ensures
        r@ == callback_url_text(port),
{
    let mut url = String::from_str(LOOPBACK_ORIGIN);
    push_decimal(&mut url, port);
    url.append(CALLBACK_PATH);
    url
}

/// Binding the listener failed; the slot stays empty and a later request
/// may try again.
#[derive(Clone, Copy, Debug, PartialEq, Eq, Structural)]
pub enum StartupError {
    BindFailed,
}

/// What a request for the callback URL must do next.
pub enum StartPlan {
    /// The listener runs; this is its URL.
    Reuse(String),
    /// No listener runs yet: bind one and report with `record_bind`.
    Bind,
}

/// The process-wide record of the bound port: empty until a bind succeeds,
/// then fixed.
pub struct ServerSlot {
    port: Option<u16>,
}

impl View for ServerSlot {
    type V = Option<u16>;

    closed spec fn view(&self) -> Option<u16> {
        self.port
    }
}

/// The slot after one request, where `bound` is what a bind would give
/// (`None` where it fails). A bind is made only on an empty slot.
pub open spec fn ensure_step(slot: Option<u16>, bound: Option<u16>) -> Option<u16> {
    match slot {
        Some(p) => Some(p),
        None => bound,
    }
}

/// Whether a request on `slot` binds a listener that is kept.
pub open spec fn binds_listener(slot: Option<u16>, bound: Option<u16>) -> bool {
    slot.is_none() && bound.is_some()
}

/// The slot after a run of requests, the i-th of which would get `binds[i]`
/// from a bind.
pub open spec fn run_slot(slot: Option<u16>, binds: Seq<Option<u16>>) -> Option<u16>
    decreases binds.len(),
{
    if binds.len() == 0 {
        slot
    } else {
        ensure_step(run_slot(slot, binds.drop_last()), binds.last())
    }
}

/// The URL answered to the i-th request of a run, or `None` where it failed.
pub open spec fn reply_at(slot: Option<u16>, binds: Seq<Option<u16>>, i: int) -> Option<Seq<char>> {
    match run_slot(slot, binds.take(i + 1)) {
        Some(p) => Some(callback_url_text(p)),
        None => None,
    }
}

/// How many listeners a run of requests binds and keeps.
pub open spec fn listeners_bound(slot: Option<u16>, binds: Seq<Option<u16>>) -> nat
    decreases binds.len(),
{
    if binds.len() == 0 {
        0
    } else {
        listeners_bound(slot, binds.drop_last()) + if binds_listener(
            run_slot(slot, binds.drop_last()),
            binds.last(),
        ) {
            1nat
        } else {
            0nat
        }
    }
}

impl ServerSlot {
    /// An empty slot: no listener is bound.
    pub fn new() -> (r: ServerSlot)
        ensures
            r@.is_none(),
    {
        ServerSlot { port: None }
    }

    /// Whether a listener has been bound.
    pub fn is_ready(&self) -> (r: bool)
        ensures
            r == self@.is_some(),
    {
        self.port.is_some()
    }

    /// The bound port, if any.
    pub fn port(&self) -> (r: Option<u16>)
        ensures
            r == self@,
    {
        self.port
    }

    /// What a request for the callback URL must do on this slot.
    pub fn plan(&self) -> (r: StartPlan)
        ensures
            match (r, self@) {
                (StartPlan::Reuse(u), Some(p)) => u@ == callback_url_text(p),
                (StartPlan::Bind, None) => true,
                _ => false,
            },
    {
        match self.port {
            Some(p) => StartPlan::Reuse(callback_url(p)),
            None => StartPlan::Bind,
        }
    }

    /// Records the outcome of a bind made on an empty slot: the port of the
    /// new listener, or `None` where binding failed.
    pub fn record_bind(&mut self, bound: Option<u16>) -> (r: Result<String, StartupError>)
        requires
            old(self)@.is_none(),
        ensures
            final(self)@ == ensure_step(old(self)@, bound),
            match (r, bound) {
                (Ok(u), Some(p)) => u@ == callback_url_text(p),
                (Err(e), None) => e == StartupError::BindFailed,
                _ => false,
            },
    {
        match bound {
            Some(p) => {
                self.port = Some(p);
                Ok(callback_url(p))
            },
            None => Err(StartupError::BindFailed),
        }
    }
}

proof fn lemma_slot_stays(slot: Option<u16>, binds: Seq<Option<u16>>, i: int, j: int)
    requires
        0 <= i <= j <= binds.len(),
        run_slot(slot, binds.take(i)).is_some(),
    ensures
        run_slot(slot, binds.take(j)) == run_slot(slot, binds.take(i)),
    decreases j - i,
{
    if j > i {
        lemma_slot_stays(slot, binds, i, j - 1);
        assert(binds.take(j).drop_last() == binds.take(j - 1));
    }
}

proof fn lemma_count_matches_slot(binds: Seq<Option<u16>>)
    ensures
        listeners_bound(None, binds) == if run_slot(None, binds).is_some() { 1nat } else { 0nat },
    decreases binds.len(),
{
    if binds.len() > 0 {
        lemma_count_matches_slot(binds.drop_last());
    }
}

/// Startup is idempotent: over any run of requests from an empty slot, at
/// most one listener is bound (exactly one once any bind succeeded), and
/// every request that gets a URL gets the same one.
pub proof fn lemma_idempotent_startup(binds: Seq<Option<u16>>)
    ensures
        listeners_bound(None, binds) <= 1,
        listeners_bound(None, binds) == 1 <==> run_slot(None, binds).is_some(),
        forall|i: int, j: int|
            0 <= i < binds.len() && 0 <= j < binds.len() && #[trigger] reply_at(None, binds, i).is_some()
                && #[trigger] reply_at(None, binds, j).is_some() ==> reply_at(None, binds, i) == reply_at(
                None,
                binds,
                j,
            ),
{
    lemma_count_matches_slot(binds);
    assert forall|i: int, j: int|
        0 <= i < binds.len() && 0 <= j < binds.len() && #[trigger] reply_at(None, binds, i).is_some()
            && #[trigger] reply_at(None, binds, j).is_some() implies reply_at(None, binds, i) == reply_at(
            None,
            binds,
            j,
        ) by {
        if i <= j {
            lemma_slot_stays(None, binds, i + 1, j + 1);
        } else {
            lemma_slot_stays(None, binds, j + 1, i + 1);
        }
    }
}

} // verus!
