//! The rule of the TLS accept pipeline: a connection whose handshake fails is
//! dropped with a warning, and the listener goes on accepting.

use vstd::prelude::*;
use vstd::string::StringExecFns;

verus! {

/// What becomes of one accepted connection once its handshake has ended.
/// There is no third way: nothing that a connection does closes the listener.
#[derive(Debug, PartialEq, Eq)]
pub enum Admission<S> {
    /// The handshake succeeded: the encrypted stream is served.
    Serve(S),
    /// The handshake failed: the connection is dropped and the warning logged.
    Discard { warning: String },
}

/// The warning logged for a handshake that failed for the given reason.
pub open spec fn handshake_warning(reason: Seq<char>) -> Seq<char> {
    "TLS handshake error: "@ + reason
}

/// Decides what becomes of a connection, given how its handshake ended: the
/// encrypted stream, or the description of the failure.
pub fn on_handshake<S>(handshake: Result<S, String>) -> (admission: Admission<S>)
    ensures
        match handshake {
            Ok(stream) => admission == Admission::Serve(stream),
            Err(reason) => admission matches Admission::Discard { warning } && warning@
                == handshake_warning(reason@),
        },
{
    match handshake {
        Ok(stream) => Admission::Serve(stream),
        Err(reason) => {
            let mut warning = String::from_str("TLS handshake error: ");
            warning.append(reason.as_str());
            Admission::Discard { warning }
        },
    }
}

/// The streams that come out of the pipeline when the handshakes of the
/// accepted connections end as given: those of the handshakes that
/// succeeded, in the order of acceptance.
pub open spec fn served<S>(handshakes: Seq<Result<S, Seq<char>>>) -> Seq<S>
    decreases handshakes.len(),
{
    if handshakes.len() == 0 {
        Seq::empty()
    } else {
        let earlier = served(handshakes.drop_last());
        match handshakes.last() {
            Ok(stream) => earlier.push(stream),
            Err(_) => earlier,
        }
    }
}

/// What is served of two runs of connections, one after the other, is what is
/// served of the first followed by what is served of the second.
pub proof fn lemma_served_in_turn<S>(
    first: Seq<Result<S, Seq<char>>>,
    second: Seq<Result<S, Seq<char>>>,
)
    ensures
        served(first + second) == served(first) + served(second),
    decreases second.len(),
{
    if second.len() == 0 {
        assert(first + second =~= first);
        assert(served(first) + served(second) =~= served(first));
    } else {
        lemma_served_in_turn(first, second.drop_last());
        assert((first + second).drop_last() =~= first + second.drop_last());
        assert((first + second).last() == second.last());
        match second.last() {
            Ok(stream) => {
                assert(served(first + second) =~= served(first) + served(second));
            },
            Err(_) => {},
        }
    }
}

/// A failed handshake costs the listener nothing: every connection accepted
/// before it and every connection accepted after it is served exactly as if
/// the failed one had never come.
pub proof fn lemma_failure_keeps_listener_open<S>(
    before: Seq<Result<S, Seq<char>>>,
    reason: Seq<char>,
    after: Seq<Result<S, Seq<char>>>,
)
    ensures
        served(before + seq![Err(reason)] + after) == served(before) + served(after),
{
    let failed: Seq<Result<S, Seq<char>>> = seq![Err(reason)];
    lemma_served_in_turn(before + failed, after);
    lemma_served_in_turn(before, failed);
    assert(failed.drop_last() =~= Seq::<Result<S, Seq<char>>>::empty());
    reveal_with_fuel(served, 2);
    assert(served(failed) =~= Seq::<S>::empty());
    assert(served(before) + served(failed) =~= served(before));
}

} // verus!
