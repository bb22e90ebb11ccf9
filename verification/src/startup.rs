//! Start-up: the command-line arguments the host passes, the WebSocket
//! address, and the first messages sent once connected.
use vstd::prelude::*;
use crate::messages::{emit_send, effects_view, log, log_view, Effect, EffectView, Outgoing, OutgoingView};
use crate::plugin::strings_view;
use crate::strs::{concat2, owned, str_eq};

verus! {

/// The value given after `flag`: the argument following its first
/// occurrence, if there is one.
pub open spec fn arg_after(args: Seq<Seq<char>>, flag: Seq<char>) -> Option<Seq<char>> {
    if exists|i: int| 0 <= i < args.len() && args[i] == flag {
        let i = choose|i: int|
            0 <= i < args.len() && args[i] == flag && forall|j: int|
                0 <= j < i ==> args[j] != flag;
        if i + 1 < args.len() {
            Some(args[i + 1])
        } else {
            None
        }
    } else {
        None
    }
}

/// The value given after `flag` on the command line.
pub fn get_arg(args: &Vec<String>, flag: &str) -> (r: Option<String>)
    ensures
        opt_view(r) == arg_after(strings_view(args@), flag@),
{
    let ghost a = strings_view(args@);
    let mut i: usize = 0;
    while i < args.len()
        invariant
            a == strings_view(args@),
            i <= args@.len(),
            forall|j: int| 0 <= j < i ==> #[trigger] a[j] != flag@,
        decreases args@.len() - i,
    {
        assert(a[i as int] == args@[i as int]@);
        if str_eq(args[i].as_str(), flag) {
            proof {
                assert(exists|k: int| 0 <= k < a.len() && a[k] == flag@);
                let k = choose|k: int|
                    0 <= k < a.len() && a[k] == flag@ && forall|j: int| 0 <= j < k ==> a[j] != flag@;
                assert(0 <= i < a.len() && a[i as int] == flag@ && forall|j: int|
                    0 <= j < i ==> a[j] != flag@);
                if k < i {
                    assert(a[k] != flag@);
                }
                if k > i {
                    assert(a[i as int] != flag@);
                }
            }
            if i + 1 < args.len() {
                assert(a[i + 1] == args@[i + 1]@);
                return Some(args[i + 1].clone());
            }
            return None;
        }
        i = i + 1;
    }
    None
}

/// The view of an optional string.
pub open spec fn opt_view(o: Option<String>) -> Option<Seq<char>> {
    match o {
        Some(s) => Some(s@),
        None => None,
    }
}

/// The host's WebSocket address on the given port.
pub fn ws_url(port: &str) -> (r: String)
    ensures
        r@ == "ws://127.0.0.1:"@ + port@,
{
    concat2("ws://127.0.0.1:", port)
}

/// The messages sent once connected: the registration under the given
/// event name, a request for the global settings, and a log line.
pub fn startup_messages(register_event: &str, uuid: &str) -> (out: Vec<Effect>)
    ensures
        effects_view(out@) == seq![
            EffectView::Send(OutgoingView::Register { event: register_event@, uuid: uuid@ }),
            EffectView::Send(OutgoingView::GetGlobalSettings { context: uuid@ }),
            EffectView::Send(log_view("Plugin connected — UUID="@ + uuid@)),
        ],
{
    let mut out: Vec<Effect> = Vec::new();
    emit_send(&mut out, Outgoing::Register { event: owned(register_event), uuid: owned(uuid) });
    emit_send(&mut out, Outgoing::GetGlobalSettings { context: owned(uuid) });
    let text = concat2("Plugin connected — UUID=", uuid);
    emit_send(&mut out, log(text.as_str()));
    assert(effects_view(out@) =~= seq![
        EffectView::Send(OutgoingView::Register { event: register_event@, uuid: uuid@ }),
        EffectView::Send(OutgoingView::GetGlobalSettings { context: uuid@ }),
        EffectView::Send(log_view("Plugin connected — UUID="@ + uuid@)),
    ]);
    out
}

} // verus!
