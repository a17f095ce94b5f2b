use vstd::prelude::*;

verus! {

/// The identifier that a counter standing at `counter` issues next.
pub open spec fn next_id(counter: u64) -> u64
    recommends
        counter < u64::MAX,
{
    (counter + 1) as u64
}

/// The identifiers that `calls` successive requests obtain from a counter
/// standing at `counter`, in the order in which they are issued.
pub open spec fn issued(counter: u64, calls: nat) -> Seq<u64>
    decreases calls,
{
    if calls == 0 {
        Seq::empty()
    } else {
        seq![next_id(counter)] + issued(next_id(counter), (calls - 1) as nat)
    }
}

/// Source of instance identifiers: a counter that starts at zero and only grows.
#[derive(Clone)]
pub struct ServerIdState {
    pub server_id_counter: u64,
}

impl ServerIdState {
    /// A counter that has issued nothing yet.
    pub fn new() -> (state: Self)
        ensures
            state.server_id_counter == 0,
    {
        ServerIdState { server_id_counter: 0 }
    }

    /// Issues the next identifier: one more than the last one issued.
    pub fn generate_server_id(&mut self) -> (id: u64)
        requires
            old(self).server_id_counter < u64::MAX,
        ensures
            id == next_id(old(self).server_id_counter),
            final(self).server_id_counter == id,
    {
        self.server_id_counter = self.server_id_counter + 1;
        self.server_id_counter
    }
}

/// Identifiers are issued in strictly increasing order, each above the
/// counter's starting point, so no two requests ever obtain the same one.
pub proof fn lemma_issued_ids_unique(counter: u64, calls: nat)
    requires
        counter + calls <= u64::MAX,
    ensures
        issued(counter, calls).len() == calls,
        forall|i: int| 0 <= i < calls ==> #[trigger] issued(counter, calls)[i] == counter + 1 + i,
        forall|i: int, j: int|
            0 <= i < j < calls ==> issued(counter, calls)[i] < issued(counter, calls)[j],
        forall|i: int, j: int|
            0 <= i < calls && 0 <= j < calls && i != j ==> issued(counter, calls)[i] != issued(
                counter,
                calls,
            )[j],
    decreases calls,
{
    if calls > 0 {
        let rest = issued(next_id(counter), (calls - 1) as nat);
        lemma_issued_ids_unique(next_id(counter), (calls - 1) as nat);
        assert forall|i: int| 0 <= i < calls implies #[trigger] issued(counter, calls)[i] == counter + 1
            + i by {
            if i > 0 {
                assert(issued(counter, calls)[i] == rest[i - 1]);
            }
        }
    }
}

} // verus!
