//! One message for many clients.

use crate::transport::base::{Outgoing, OutgoingView};
use crate::util::string_map::{distinct_texts, holds_text};
use vstd::prelude::*;

verus! {

/// What a message says, where there is one.
pub open spec fn optional_outgoing(outgoing: Option<Outgoing>) -> Option<OutgoingView> {
    match outgoing {
        Some(message) => Some(message@),
        None => None,
    }
}

/// Whether these messages are those that go out: one for each client that is
/// reached, and no other.
pub open spec fn is_broadcast(
    sent: Seq<(String, Outgoing)>,
    reached: spec_fn(Seq<char>) -> Option<OutgoingView>,
) -> bool {
    &&& forall|i: int, j: int|
        0 <= i < j < sent.len() ==> (#[trigger] sent[i]).0@ != (#[trigger] sent[j]).0@
    &&& forall|i: int|
        0 <= i < sent.len() ==> reached((#[trigger] sent[i]).0@) == Some(sent[i].1@)
    &&& forall|client: Seq<char>| #[trigger]
        reached(client) is Some ==> exists|i: int|
            0 <= i < sent.len() && (#[trigger] sent[i]).0@ == client
}

/// Prepares a message for each of these clients, where it has one.
pub(crate) fn send_to_each<F: Fn(&str) -> Option<Outgoing>>(
    clients: &Vec<String>,
    prepare: F,
    Ghost(reached): Ghost<spec_fn(Seq<char>) -> Option<OutgoingView>>,
) -> (sent: Vec<(String, Outgoing)>)
    requires
        distinct_texts(clients@),
        forall|client: &str| call_requires(prepare, (client,)),
        forall|client: &str, outgoing: Option<Outgoing>|
            call_ensures(prepare, (client,), outgoing) ==> optional_outgoing(outgoing) == reached(
                client@,
            ),
        forall|client: Seq<char>| #[trigger]
            reached(client) is Some ==> holds_text(clients@, client),
    ensures
        is_broadcast(sent@, reached),
{
    let mut sent: Vec<(String, Outgoing)> = Vec::new();
    let mut k: usize = 0;
    while k < clients.len()
        invariant
            k <= clients@.len(),
            distinct_texts(clients@),
            forall|client: &str| call_requires(prepare, (client,)),
            forall|client: &str, outgoing: Option<Outgoing>|
                call_ensures(prepare, (client,), outgoing) ==> optional_outgoing(outgoing)
                    == reached(client@),
            forall|i: int, j: int|
                0 <= i < j < sent@.len() ==> (#[trigger] sent@[i]).0@ != (#[trigger] sent@[j]).0@,
            forall|i: int|
                0 <= i < sent@.len() ==> reached((#[trigger] sent@[i]).0@) == Some(sent@[i].1@),
            forall|i: int|
                0 <= i < sent@.len() ==> exists|j: int|
                    0 <= j < k && (#[trigger] clients@[j])@ == (#[trigger] sent@[i]).0@,
            forall|j: int|
                0 <= j < k && reached((#[trigger] clients@[j])@) is Some ==> exists|i: int|
                    0 <= i < sent@.len() && (#[trigger] sent@[i]).0@ == clients@[j]@,
        decreases clients@.len() - k,
    {
        if let Some(outgoing) = prepare(clients[k].as_str()) {
            let ghost before = sent@;
            sent.push((clients[k].clone(), outgoing));
            proof {
                assert forall|i: int, j: int| 0 <= i < j < sent@.len() implies (
                #[trigger] sent@[i]).0@ != (#[trigger] sent@[j]).0@ by {
                    if j == before.len() {
                        let m = choose|m: int|
                            0 <= m < k && (#[trigger] clients@[m])@ == before[i].0@;
                        assert(clients@[m]@ != clients@[k as int]@);
                    }
                }
                assert forall|i: int| 0 <= i < sent@.len() implies exists|j: int|
                    0 <= j < k + 1 && (#[trigger] clients@[j])@ == (#[trigger] sent@[i]).0@ by {
                    if i < before.len() {
                        let m = choose|m: int|
                            0 <= m < k && (#[trigger] clients@[m])@ == before[i].0@;
                        assert(clients@[m]@ == sent@[i].0@);
                    } else {
                        assert(clients@[k as int]@ == sent@[i].0@);
                    }
                }
                assert forall|j: int|
                    0 <= j < k + 1 && reached(
                        (#[trigger] clients@[j])@,
                    ) is Some implies exists|i: int|
                    0 <= i < sent@.len() && (#[trigger] sent@[i]).0@ == clients@[j]@ by {
                    if j < k {
                        let i = choose|i: int|
                            0 <= i < before.len() && (#[trigger] before[i]).0@ == clients@[j]@;
                        assert(sent@[i].0@ == clients@[j]@);
                    } else {
                        assert(sent@[before.len() as int].0@ == clients@[j]@);
                    }
                }
            }
        }
        k = k + 1;
    }
    proof {
        assert forall|client: Seq<char>| #[trigger] reached(client) is Some implies exists|i: int|
            0 <= i < sent@.len() && (#[trigger] sent@[i]).0@ == client by {
            let j = choose|j: int| 0 <= j < clients@.len() && (#[trigger] clients@[j])@ == client;
            assert(reached(clients@[j]@) is Some);
        }
    }
    sent
}

} // verus!
