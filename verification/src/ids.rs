use vstd::prelude::*;
use vstd::std_specs::convert::FromSpecImpl;

verus! {

/// Identity of the remote execution context that issued a request.
pub type IsolateId = i64;

/// Handle under which a registered reader is addressed.
#[derive(Clone, Copy, Debug, PartialEq, Eq, Hash, Structural)]
pub struct DataReaderId(pub i64);

impl From<i64> for DataReaderId {
    fn from(i: i64) -> (res: Self) {
        Self(i)
    }
}

impl FromSpecImpl<i64> for DataReaderId {
    open spec fn obeys_from_spec() -> bool {
        true
    }

    open spec fn from_spec(i: i64) -> Self {
        DataReaderId(i)
    }
}

/// Identity of one progress channel. A channel keeps its identity for as long
/// as the operation it reports on is in flight, and the identity is never
/// given to another channel afterwards.
#[derive(Clone, Copy, Debug, PartialEq, Eq, Hash, Structural)]
pub struct ChannelId(pub u64);

} // verus!
