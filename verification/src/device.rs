//! The registry of opened devices: an append-only list of handles, each
//! known by its index for as long as the registry lives.

use crate::scan::{is_first_set, none_set};
use vstd::prelude::*;

verus! {

/// Why no device could be had.
#[derive(Clone, Copy, Debug, PartialEq, Eq, Structural)]
pub enum DeviceCreationError {
    /// The instance has no adapter for the request.
    NoAdapter,
    /// The adapter gave no device.
    NoDevice,
}

/// The features that a new device is asked to have, where its adapter has
/// them: none.
pub const WANTED_FEATURES: u64 = 0;

/// The resource limits that a new device is asked for.
#[derive(Clone, Copy, Debug, PartialEq, Eq, Structural)]
pub enum LimitsProfile {
    /// The defaults.
    Default,
    /// The reduced limits of a platform that renders through WebGL 2.
    DownlevelWebGl2,
}

/// What a new device is asked for.
#[derive(Clone, Copy, Debug, PartialEq, Eq, Structural)]
pub struct DeviceRequest {
    /// The feature bits that the device must have.
    pub features: u64,
    /// The resource limits that the device must offer.
    pub limits: LimitsProfile,
}

/// The request for a device of an adapter with the feature bits `supported`:
/// of the wanted features those that the adapter has, and the default
/// limits, or the reduced ones on a platform that cannot offer more.
pub fn device_request(supported: u64, wanted: u64, reduced_limits: bool) -> (r: DeviceRequest)
    ensures
        r.features == supported & wanted,
        r.limits == if reduced_limits {
            LimitsProfile::DownlevelWebGl2
        } else {
            LimitsProfile::Default
        },
{
    DeviceRequest {
        features: supported & wanted,
        limits: if reduced_limits {
            LimitsProfile::DownlevelWebGl2
        } else {
            LimitsProfile::Default
        },
    }
}

/// The flags that count for a registry of `len` devices: one for each
/// device. Flags beyond the last device are not looked at, and a device
/// without a flag is not a candidate.
pub open spec fn counted(len: nat, flags: Seq<bool>) -> Seq<bool> {
    if flags.len() <= len {
        flags
    } else {
        flags.take(len as int)
    }
}

/// `r` answers the query for a device among `len` of them. With `support`
/// given, which says of each device whether its adapter can present to the
/// surface in question, the answer is the first device that can. Without it,
/// the answer is the first device of all.
pub open spec fn is_lookup(len: nat, support: Option<Seq<bool>>, r: Option<usize>) -> bool {
    match support {
        None => r == if len > 0 {
            Some(0usize)
        } else {
            None
        },
        Some(flags) => match r {
            Some(i) => is_first_set(counted(len, flags), i as int),
            None => none_set(counted(len, flags)),
        },
    }
}

/// The flags of a query, as a sequence.
pub open spec fn support_view(support: Option<&Vec<bool>>) -> Option<Seq<bool>> {
    match support {
        Some(flags) => Some(flags@),
        None => None,
    }
}

/// The devices opened so far.
pub struct DeviceRegistry<H> {
    devices: Vec<H>,
}

impl<H> DeviceRegistry<H> {
    /// The handles, in the order in which they were opened.
    pub closed spec fn view(&self) -> Seq<H> {
        self.devices@
    }

    /// A registry without devices.
    pub fn new() -> (r: Self)
        ensures
            r@ == Seq::<H>::empty(),
    {
        DeviceRegistry { devices: Vec::new() }
    }

    /// The number of devices.
    pub fn len(&self) -> (n: usize)
        ensures
            n == self@.len(),
    {
        self.devices.len()
    }

    /// The handle at `index`, if there is one.
    pub fn get(&self, index: usize) -> (r: Option<&H>)
        ensures
            r is Some <==> index < self@.len(),
            r is Some ==> *r->Some_0 == self@[index as int],
    {
        if index < self.devices.len() {
            Some(&self.devices[index])
        } else {
            None
        }
    }

    /// Looks for a device to present to a surface with. `support` says of
    /// each device whether its adapter can present to that surface; without
    /// it any device will do, and the first is taken.
    pub fn find_device(&self, support: Option<&Vec<bool>>) -> (r: Option<usize>)
        ensures
            is_lookup(self@.len(), support_view(support), r),
            r is Some ==> r->Some_0 < self@.len(),
    {
        match support {
            None => {
                if self.devices.len() > 0 {
                    Some(0)
                } else {
                    None
                }
            },
            Some(flags) => {
                let n: usize = if flags.len() <= self.devices.len() {
                    flags.len()
                } else {
                    self.devices.len()
                };
                let ghost known = counted(self@.len(), flags@);
                let mut i: usize = 0;
                while i < n
                    invariant
                        i <= n,
                        n == known.len(),
                        n <= flags.len(),
                        known == counted(self@.len(), flags@),
                        support_view(support) == Some(flags@),
                        forall|j: int| 0 <= j < i ==> !known[j],
                    decreases n - i,
                {
                    assert(known[i as int] == flags@[i as int]);
                    if flags[i] {
                        return Some(i);
                    }
                    i += 1;
                }
                None
            },
        }
    }

    /// Takes in what the attempt to open a device gave: a new handle goes
    /// to the end of the list and is known by its index from then on; a
    /// failure is handed on and the list stays as it is.
    pub fn add_device(&mut self, created: Result<H, DeviceCreationError>) -> (r: Result<
        usize,
        DeviceCreationError,
    >)
        ensures
            match created {
                Ok(handle) => {
                    &&& r == Ok::<usize, DeviceCreationError>(old(self)@.len() as usize)
                    &&& final(self)@ == old(self)@.push(handle)
                },
                Err(e) => {
                    &&& r == Err::<usize, DeviceCreationError>(e)
                    &&& final(self)@ == old(self)@
                },
            },
    {
        match created {
            Ok(handle) => {
                let index: usize = self.devices.len();
                self.devices.push(handle);
                Ok(index)
            },
            Err(e) => Err(e),
        }
    }

    /// Resolves a device to present to a surface with: the one that a lookup
    /// finds, and only where it finds none a new one, opened by `create`.
    /// If `create` fails, so does the call.
    pub fn find_or_create_device<F: FnOnce() -> Result<H, DeviceCreationError>>(
        &mut self,
        support: Option<&Vec<bool>>,
        create: F,
    ) -> (r: Result<usize, DeviceCreationError>)
        requires
            create.requires(()),
        ensures
            forall|i: int| 0 <= i < old(self)@.len() ==> final(self)@[i] == old(self)@[i],
            forall|i: usize|
                is_lookup(old(self)@.len(), support_view(support), Some(i)) ==> {
                    &&& r == Ok::<usize, DeviceCreationError>(i)
                    &&& final(self)@ == old(self)@
                },
            is_lookup(old(self)@.len(), support_view(support), None) ==> exists|
                created: Result<H, DeviceCreationError>,
            |
                #![auto]
                create.ensures((), created) && match created {
                    Ok(handle) => {
                        &&& r == Ok::<usize, DeviceCreationError>(old(self)@.len() as usize)
                        &&& final(self)@ == old(self)@.push(handle)
                    },
                    Err(e) => {
                        &&& r == Err::<usize, DeviceCreationError>(e)
                        &&& final(self)@ == old(self)@
                    },
                },
    {
        match self.find_device(support) {
            Some(index) => {
                proof {
                    lemma_lookup_is_unique(old(self)@.len(), support_view(support));
                }
                Ok(index)
            },
            None => {
                proof {
                    lemma_lookup_is_unique(old(self)@.len(), support_view(support));
                }
                let created = create();
                self.add_device(created)
            },
        }
    }
}

/// A query has one answer.
pub proof fn lemma_lookup_is_unique(len: nat, support: Option<Seq<bool>>)
    ensures
        forall|a: Option<usize>, b: Option<usize>|
            is_lookup(len, support, a) && is_lookup(len, support, b) ==> a == b,
{
    assert forall|a: Option<usize>, b: Option<usize>|
        is_lookup(len, support, a) && is_lookup(len, support, b) implies a == b by {
        if let Some(flags) = support {
            let known = counted(len, flags);
            match (a, b) {
                (Some(i), Some(k)) => {
                    crate::scan::lemma_first_set_unique(known, i as int, k as int);
                },
                (Some(i), None) => {
                    assert(known[i as int]);
                },
                (None, Some(k)) => {
                    assert(known[k as int]);
                },
                (None, None) => {},
            }
        }
    }
}

/// Asking twice gives the same device. A query on an unchanged registry has
/// the answer it had. And where the first query found none, so that a device
/// was opened for the surface and took the next index, the second query,
/// which now sees that device as able to present to the surface, finds that
/// very device.
pub proof fn law_lookup_after_create(
    len: nat,
    support: Option<Seq<bool>>,
    first: Option<usize>,
    second: Option<usize>,
)
    requires
        len < usize::MAX,
        is_lookup(len, support, first),
        match first {
            Some(_) => is_lookup(len, support, second),
            None => is_lookup(
                len + 1,
                match support {
                    Some(flags) => Some(counted(len, flags) + Seq::new(
                        (len - counted(len, flags).len()) as nat,
                        |i: int| false,
                    ).push(true)),
                    None => None,
                },
                second,
            ),
        },
    ensures
        match first {
            Some(i) => second == Some(i),
            None => second == Some(len as usize),
        },
{
    lemma_lookup_is_unique(len, support);
    match first {
        Some(_) => {},
        None => {
            match support {
                None => {},
                Some(flags) => {
                    let known = counted(len, flags);
                    let after = known + Seq::new((len - known.len()) as nat, |i: int| false).push(
                        true,
                    );
                    assert(after.len() == len + 1);
                    assert(counted(len + 1, after) == after);
                    assert(is_first_set(after, len as int)) by {
                        assert forall|j: int| 0 <= j < len implies !after[j] by {
                            if j < known.len() {
                                assert(after[j] == known[j]);
                            }
                        }
                    }
                    lemma_lookup_is_unique(len + 1, Some(after));
                    assert(is_lookup(len + 1, Some(after), Some(len as usize)));
                },
            }
        },
    }
}

} // verus!
