//! The table of receiver channels a message can be sent down, keyed by
//! receiver number, and the routing decision for one receiver number.
use vstd::prelude::*;

verus! {

/// The receiver numbers that have a channel; no number appears twice.
pub struct RouteTable {
    keys: Vec<u32>,
}

impl View for RouteTable {
    type V = Seq<u32>;

    closed spec fn view(&self) -> Seq<u32> {
        self.keys@
    }
}

/// Where a message for a receiver number goes.
#[derive(Clone, Copy, Debug, PartialEq, Eq, Structural)]
pub enum Route {
    /// Down the channel of that receiver.
    Forward(u32),
    /// Nowhere: no channel has that number (the message is reported and dropped).
    Misroute(u32),
}

/// Receiver numbers `1 ..= receiver_num`, in order.
pub open spec fn receiver_keys(receiver_num: u32) -> Seq<u32> {
    Seq::new(receiver_num as nat, |i: int| (i + 1) as u32)
}

/// The route of a message for receiver `key` through a table with `keys`.
pub open spec fn spec_route(keys: Seq<u32>, key: u32) -> Route {
    if keys.contains(key) {
        Route::Forward(key)
    } else {
        Route::Misroute(key)
    }
}

impl RouteTable {
    /// Each receiver number has at most one channel.
    #[verifier::type_invariant]
    spec fn distinct_keys(self) -> bool {
        self.keys@.no_duplicates()
    }

    /// A table with the given receiver numbers, each given once (as the keys
    /// of a map of channels are).
    pub fn new(keys: Vec<u32>) -> (t: RouteTable)
        requires
                keys@.no_duplicates(),
        ensures
            t@ == keys@,
    {
        RouteTable { keys }
    }

    /// The receiver numbers of the table, in order.
    pub fn keys(&self) -> (k: &Vec<u32>)
        ensures
            k@ == self@,
            k@.no_duplicates(),
    {
        proof {
            use_type_invariant(self);
        }
        &self.keys
    }

    /// The table that the server builds: one channel for each of the
    /// receivers `1 ..= receiver_num`.
    pub fn receivers(receiver_num: u32) -> (t: RouteTable)
        requires
            receiver_num < u32::MAX,
        ensures
            t@ == receiver_keys(receiver_num),
            t@.no_duplicates(),
    {
        let mut keys: Vec<u32> = Vec::new();
        let mut curr: u32 = 1;
        while curr < receiver_num + 1
            invariant
                1 <= curr <= receiver_num + 1,
                receiver_num < u32::MAX,
                keys@ == receiver_keys((curr - 1) as u32),
                keys@.no_duplicates(),
                forall|j: int| 0 <= j < keys@.len() ==> keys@[j] < curr,
            decreases receiver_num + 1 - curr,
        {
            keys.push(curr);
            curr = curr + 1;
        }
        RouteTable { keys }
    }

    /// Whether receiver `key` has a channel.
    pub fn contains(&self, key: u32) -> (b: bool)
        ensures
            b == self@.contains(key),
    {
        let mut i: usize = 0;
        while i < self.keys.len()
            invariant
                0 <= i <= self.keys@.len(),
                forall|j: int| 0 <= j < i ==> self.keys@[j] != key,
            decreases self.keys@.len() - i,
        {
            if self.keys[i] == key {
                return true;
            }
            i = i + 1;
        }
        false
    }

    /// Where a message for receiver `key` goes.
    pub fn route(&self, key: u32) -> (r: Route)
        ensures
            r == spec_route(self@, key),
    {
        if self.contains(key) {
            Route::Forward(key)
        } else {
            Route::Misroute(key)
        }
    }
}

/// Every receiver number `1 ..= receiver_num` has a channel in the server's
/// table, and no other number has one.
pub proof fn lemma_receiver_keys(receiver_num: u32, key: u32)
    ensures
        receiver_keys(receiver_num).contains(key) <==> 1 <= key <= receiver_num,
{
    let s = receiver_keys(receiver_num);
    if 1 <= key <= receiver_num {
        assert(s[key - 1] == key);
    }
}

} // verus!
