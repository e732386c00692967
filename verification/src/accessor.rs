//! What an accessor says of itself: where it points and what it can do.

use vstd::prelude::*;

verus! {

/// One thing an accessor may be able to do.
#[derive(Clone, Copy, Debug, PartialEq, Eq, Structural)]
pub enum AccessorCapability {
    Read,
    Write,
    List,
    Presign,
    Multipart,
    Blocking,
}

impl AccessorCapability {
    /// The flag of the capability: a distinct single bit.
    pub open spec fn spec_bit(self) -> u8 {
        match self {
            AccessorCapability::Read => 1,
            AccessorCapability::Write => 2,
            AccessorCapability::List => 4,
            AccessorCapability::Presign => 8,
            AccessorCapability::Multipart => 16,
            AccessorCapability::Blocking => 32,
        }
    }

    /// The flag of the capability.
    pub fn bit(self) -> (b: u8)
        ensures
            b == self.spec_bit(),
    {
        match self {
            AccessorCapability::Read => 1,
            AccessorCapability::Write => 2,
            AccessorCapability::List => 4,
            AccessorCapability::Presign => 8,
            AccessorCapability::Multipart => 16,
            AccessorCapability::Blocking => 32,
        }
    }
}

/// Whether the flag of `cap` is set in `bits`.
pub open spec fn has_flag(bits: u8, cap: AccessorCapability) -> bool {
    bits & cap.spec_bit() != 0
}

/// The capabilities whose flags are set in `bits`.
pub open spec fn flags_set(bits: u8) -> Set<AccessorCapability> {
    Set::new(|cap: AccessorCapability| has_flag(bits, cap))
}

/// A set of capabilities, held as a bit set.
#[derive(Clone, Copy, Debug, PartialEq, Eq, Structural)]
pub struct Capabilities {
    bits: u8,
}

impl View for Capabilities {
    type V = Set<AccessorCapability>;

    closed spec fn view(&self) -> Set<AccessorCapability> {
        flags_set(self.bits)
    }
}

impl Capabilities {
    /// The flags that are set.
    pub closed spec fn spec_bits(self) -> u8 {
        self.bits
    }

    /// Only the six capability flags are ever set.
    #[verifier::type_invariant]
    closed spec fn only_flags(self) -> bool {
        self.bits & 0xc0 == 0
    }

    /// The set that holds no capability.
    pub fn empty() -> (c: Self)
        ensures
            c@ == Set::<AccessorCapability>::empty(),
            c.spec_bits() == 0,
    {
        assert(0u8 & 0xc0 == 0) by (bit_vector);
        assert forall|cap: AccessorCapability| !has_flag(0u8, cap) by {
            let b = cap.spec_bit();
            assert(0u8 & b == 0) by (bit_vector);
        }
        assert(flags_set(0u8) =~= Set::<AccessorCapability>::empty());
        Capabilities { bits: 0 }
    }

    /// The flags that are set: 1 for read, 2 for write, 4 for list, 8 for
    /// presign, 16 for multipart, 32 for blocking.
    pub fn bits(&self) -> (b: u8)
        ensures
            b == self.spec_bits(),
            flags_set(b) == self@,
    {
        self.bits
    }

    /// Whether `cap` is in the set.
    pub fn has(&self, cap: AccessorCapability) -> (r: bool)
        ensures
            r == self@.contains(cap),
    {
        self.bits & cap.bit() != 0
    }

    /// The set with `cap` added.
    pub fn with(self, cap: AccessorCapability) -> (c: Self)
        ensures
            c@ == self@.insert(cap),
    {
        proof {
            use_type_invariant(self);
        }
        let b = cap.bit();
        let bits = self.bits | b;
        proof {
            let old_bits = self.bits;
            assert(b == 1 || b == 2 || b == 4 || b == 8 || b == 16 || b == 32);
            assert((old_bits | b) & 0xc0 == 0) by (bit_vector)
                requires
                    old_bits & 0xc0 == 0,
                    b == 1 || b == 2 || b == 4 || b == 8 || b == 16 || b == 32,
            ;
            assert forall|other: AccessorCapability|
                has_flag(bits, other) == (other == cap || has_flag(old_bits, other)) by {
                let o = other.spec_bit();
                assert(((old_bits | b) & o != 0) == ((b & o != 0) || (old_bits & o != 0)))
                    by (bit_vector);
                assert((b & o != 0) == (b == o)) by (bit_vector)
                    requires
                        b == 1 || b == 2 || b == 4 || b == 8 || b == 16 || b == 32,
                        o == 1 || o == 2 || o == 4 || o == 8 || o == 16 || o == 32,
                ;
            }
            assert(flags_set(bits) =~= flags_set(old_bits).insert(cap));
        }
        Capabilities { bits }
    }

    /// The capabilities that are in both sets.
    pub fn intersect(self, other: Capabilities) -> (c: Self)
        ensures
            c@ == self@.intersect(other@),
    {
        proof {
            use_type_invariant(self);
        }
        let bits = self.bits & other.bits;
        proof {
            let x = self.bits;
            let y = other.bits;
            assert((x & y) & 0xc0 == 0) by (bit_vector)
                requires
                    x & 0xc0 == 0,
            ;
            assert forall|cap: AccessorCapability|
                has_flag(bits, cap) == (has_flag(x, cap) && has_flag(y, cap)) by {
                let o = cap.spec_bit();
                assert(((x & y) & o != 0) == ((x & o != 0) && (y & o != 0))) by (bit_vector)
                    requires
                        o == 1 || o == 2 || o == 4 || o == 8 || o == 16 || o == 32,
                ;
            }
            assert(flags_set(bits) =~= flags_set(x).intersect(flags_set(y)));
        }
        Capabilities { bits }
    }

    /// Whether every capability of this set is in `other`.
    pub fn is_subset_of(&self, other: &Capabilities) -> (r: bool)
        ensures
            r == self@.subset_of(other@),
    {
        let x = self.bits;
        let y = other.bits;
        let r = x & !y == 0;
        proof {
            use_type_invariant(self);
            if r {
                assert forall|cap: AccessorCapability| has_flag(x, cap) implies has_flag(
                    y,
                    cap,
                ) by {
                    let o = cap.spec_bit();
                    assert(y & o != 0) by (bit_vector)
                        requires
                            x & !y == 0,
                            x & o != 0,
                    ;
                }
            } else {
                let cap = witness_outside(x, y);
                assert(self@.contains(cap) && !other@.contains(cap));
            }
        }
        r
    }
}

/// A capability whose flag is set in `x` and not in `y`, where there is one.
proof fn witness_outside(x: u8, y: u8) -> (cap: AccessorCapability)
    requires
        x & 0xc0 == 0,
        x & !y != 0,
    ensures
        has_flag(x, cap),
        !has_flag(y, cap),
{
    assert((x & 1 != 0 && y & 1 == 0) || (x & 2 != 0 && y & 2 == 0) || (x & 4 != 0 && y & 4 == 0)
        || (x & 8 != 0 && y & 8 == 0) || (x & 16 != 0 && y & 16 == 0) || (x & 32 != 0 && y & 32
        == 0)) by (bit_vector)
        requires
            x & 0xc0 == 0,
            x & !y != 0,
    ;
    if x & 1 != 0 && y & 1 == 0 {
        AccessorCapability::Read
    } else if x & 2 != 0 && y & 2 == 0 {
        AccessorCapability::Write
    } else if x & 4 != 0 && y & 4 == 0 {
        AccessorCapability::List
    } else if x & 8 != 0 && y & 8 == 0 {
        AccessorCapability::Presign
    } else if x & 16 != 0 && y & 16 == 0 {
        AccessorCapability::Multipart
    } else {
        AccessorCapability::Blocking
    }
}

/// The kind of storage behind an accessor.
#[derive(Clone, Copy, Debug, PartialEq, Eq, Structural)]
pub enum Scheme {
    Azblob,
    Fs,
    Gcs,
    Memory,
    S3,
}

/// What an [`AccessorMetadata`] is, as plain values.
pub struct AccessorMetadataView {
    pub scheme: Scheme,
    pub root: Seq<char>,
    pub name: Seq<char>,
    pub capabilities: Set<AccessorCapability>,
}

/// What an accessor says of itself.
#[derive(Clone, Debug, PartialEq, Eq)]
pub struct AccessorMetadata {
    scheme: Scheme,
    root: String,
    name: String,
    capabilities: Capabilities,
}

impl View for AccessorMetadata {
    type V = AccessorMetadataView;

    closed spec fn view(&self) -> AccessorMetadataView {
        AccessorMetadataView {
            scheme: self.scheme,
            root: self.root@,
            name: self.name@,
            capabilities: self.capabilities@,
        }
    }
}

impl AccessorMetadata {
    pub fn new(scheme: Scheme, root: &str, name: &str, capabilities: Capabilities) -> (m: Self)
        ensures
            m@ == (AccessorMetadataView {
                scheme,
                root: root@,
                name: name@,
                capabilities: capabilities@,
            }),
    {
        AccessorMetadata { scheme, root: root.to_owned(), name: name.to_owned(), capabilities }
    }

    pub fn scheme(&self) -> (s: Scheme)
        ensures
            s == self@.scheme,
    {
        self.scheme
    }

    /// The root under which every operation happens.
    pub fn root(&self) -> (s: &str)
        ensures
            s@ == self@.root,
    {
        self.root.as_str()
    }

    /// The name of the backend: a bucket or container.
    pub fn name(&self) -> (s: &str)
        ensures
            s@ == self@.name,
    {
        self.name.as_str()
    }

    pub fn capabilities(&self) -> (c: Capabilities)
        ensures
            c@ == self@.capabilities,
    {
        self.capabilities
    }

    /// The same metadata with no capability but those that `keep` holds too.
    pub fn restricted_to(self, keep: Capabilities) -> (m: Self)
        ensures
            m@ == (AccessorMetadataView {
                capabilities: self@.capabilities.intersect(keep@),
                ..self@
            }),
    {
        AccessorMetadata {
            scheme: self.scheme,
            root: self.root,
            name: self.name,
            capabilities: self.capabilities.intersect(keep),
        }
    }
}

} // verus!
