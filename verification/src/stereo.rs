//! Values that exist once per output channel.

use vstd::prelude::*;

verus! {

/// A pair of values, one for each of the two output channels.
#[derive(Clone, Copy, Debug, PartialEq)]
pub struct Stereo<T> {
    /// The value for channel A.
    pub a: T,
    /// The value for channel B.
    pub b: T,
}

impl<T: Default> Default for Stereo<T> {
    fn default() -> (r: Self)
        ensures
            call_ensures(T::default, (), r.a),
            call_ensures(T::default, (), r.b),
    {
        Stereo { a: T::default(), b: T::default() }
    }
}

impl<T> From<(T, T)> for Stereo<T> {
    fn from(channels: (T, T)) -> (r: Self) {
        Stereo { a: channels.0, b: channels.1 }
    }
}

impl<T> vstd::std_specs::convert::FromSpecImpl<(T, T)> for Stereo<T> {
    open spec fn obeys_from_spec() -> bool {
        true
    }

    open spec fn from_spec(channels: (T, T)) -> Self {
        Stereo { a: channels.0, b: channels.1 }
    }
}

/// The first of a pair is for channel A, the second for channel B.
pub proof fn law_pair_by_channel<T>(x: T, y: T)
    ensures
        <Stereo<T> as vstd::std_specs::convert::FromSpec<(T, T)>>::from_spec((x, y)).a == x,
        <Stereo<T> as vstd::std_specs::convert::FromSpec<(T, T)>>::from_spec((x, y)).b == y,
        <Stereo<T> as vstd::std_specs::convert::FromSpec<(T, T)>>::obeys_from_spec(),
{
}

} // verus!
