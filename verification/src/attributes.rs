use vstd::prelude::*;

verus! {

/// Bit of `kJSClassAttributeNoAutomaticPrototype`.
pub const CLASS_ATTRIBUTE_NO_AUTOMATIC_PROTOTYPE: u32 = 2;

/// Every bit that names a class attribute.
pub const CLASS_ATTRIBUTES_ALL: u32 = 2;

/// Bit of `kJSPropertyAttributeReadOnly`.
pub const PROPERTY_ATTRIBUTE_READ_ONLY: u32 = 2;

/// Bit of `kJSPropertyAttributeDontEnum`.
pub const PROPERTY_ATTRIBUTE_DONT_ENUM: u32 = 4;

/// Bit of `kJSPropertyAttributeDontDelete`.
pub const PROPERTY_ATTRIBUTE_DONT_DELETE: u32 = 8;

/// Every bit that names a property attribute.
pub const PROPERTY_ATTRIBUTES_ALL: u32 = 14;

/// `a` holds every bit of `b`.
pub open spec fn bits_contain(a: u32, b: u32) -> bool {
    a & b == b
}

/// `a` and `b` share a bit.
pub open spec fn bits_intersect(a: u32, b: u32) -> bool {
    a & b != 0
}

/// A set of JavaScript class attributes, held as the engine's bit mask.
#[derive(Debug, Clone, Copy, PartialEq, Eq, PartialOrd, Ord, Hash, Structural)]
pub struct JsClassAttributes {
    bits: u32,
}

impl View for JsClassAttributes {
    type V = u32;

    closed spec fn view(&self) -> u32 {
        self.bits
    }
}

impl JsClassAttributes {
    /// The attribute set with no attribute (`kJSClassAttributeNone`).
    pub fn none() -> (r: Self)
        ensures
            r@ == 0,
    {
        JsClassAttributes { bits: 0 }
    }

    /// `kJSClassAttributeNoAutomaticPrototype`.
    pub fn no_automatic_prototype() -> (r: Self)
        ensures
            r@ == CLASS_ATTRIBUTE_NO_AUTOMATIC_PROTOTYPE,
    {
        JsClassAttributes { bits: CLASS_ATTRIBUTE_NO_AUTOMATIC_PROTOTYPE }
    }

    /// The empty set.
    pub fn empty() -> (r: Self)
        ensures
            r@ == 0,
    {
        JsClassAttributes { bits: 0 }
    }

    /// The set of every known attribute.
    pub fn all() -> (r: Self)
        ensures
            r@ == CLASS_ATTRIBUTES_ALL,
    {
        JsClassAttributes { bits: CLASS_ATTRIBUTES_ALL }
    }

    /// The raw bit mask.
    pub fn bits(&self) -> (r: u32)
        ensures
            r == self@,
    {
        self.bits
    }

    /// The set with exactly these bits, if every bit names a known attribute.
    pub fn from_bits(bits: u32) -> (r: Option<Self>)
        ensures
            r is Some <==> bits & !CLASS_ATTRIBUTES_ALL == 0,
            r matches Some(f) ==> f@ == bits,
    {
        if bits & !CLASS_ATTRIBUTES_ALL == 0 {
            Some(JsClassAttributes { bits })
        } else {
            None
        }
    }

    /// The set of the known attributes among these bits; unknown bits are dropped.
    pub fn from_bits_truncate(bits: u32) -> (r: Self)
        ensures
            r@ == bits & CLASS_ATTRIBUTES_ALL,
    {
        JsClassAttributes { bits: bits & CLASS_ATTRIBUTES_ALL }
    }

    /// The set with exactly these bits, known or not.
    pub fn from_bits_retain(bits: u32) -> (r: Self)
        ensures
            r@ == bits,
    {
        JsClassAttributes { bits }
    }

    /// No bit is set.
    pub fn is_empty(&self) -> (r: bool)
        ensures
            r <==> self@ == 0,
    {
        self.bits == 0
    }

    /// Every known attribute is set.
    pub fn is_all(&self) -> (r: bool)
        ensures
            r <==> bits_contain(self@, CLASS_ATTRIBUTES_ALL),
            r <==> (self@ | CLASS_ATTRIBUTES_ALL) == self@,
    {
        proof {
            law_contains_iff_union_unchanged(self@, CLASS_ATTRIBUTES_ALL);
        }
        self.bits & CLASS_ATTRIBUTES_ALL == CLASS_ATTRIBUTES_ALL
    }

    /// Some attribute of `other` is set here.
    pub fn intersects(&self, other: Self) -> (r: bool)
        ensures
            r <==> bits_intersect(self@, other@),
            r <==> self@ & other@ != 0,
            r <==> (self@ & !other@) != self@,
            r <==> (other@ & !self@) != other@,
    {
        proof {
            law_intersects_iff_removal_changes(self@, other@);
        }
        self.bits & other.bits != 0
    }

    /// Every attribute of `other` is set here.
    pub fn contains(&self, other: Self) -> (r: bool)
        ensures
            r <==> bits_contain(self@, other@),
            r <==> self@ & other@ == other@,
            r <==> (self@ | other@) == self@,
    {
        proof {
            law_contains_iff_union_unchanged(self@, other@);
        }
        self.bits & other.bits == other.bits
    }

    /// Sets the attributes of `other`.
    pub fn insert(&mut self, other: Self)
        ensures
            final(self)@ == old(self)@ | other@,
    {
        self.bits = self.bits | other.bits;
    }

    /// Clears the attributes of `other`.
    pub fn remove(&mut self, other: Self)
        ensures
            final(self)@ == old(self)@ & !other@,
    {
        self.bits = self.bits & !other.bits;
    }

    /// Flips the attributes of `other`.
    pub fn toggle(&mut self, other: Self)
        ensures
            final(self)@ == old(self)@ ^ other@,
    {
        self.bits = self.bits ^ other.bits;
    }

    /// Sets the attributes of `other` when `value` holds, clears them otherwise.
    pub fn set(&mut self, other: Self, value: bool)
        ensures
            final(self)@ == (if value { old(self)@ | other@ } else { old(self)@ & !other@ }),
    {
        if value {
            self.insert(other);
        } else {
            self.remove(other);
        }
    }

    /// The attributes set in both.
    pub fn intersection(self, other: Self) -> (r: Self)
        ensures
            r@ == self@ & other@,
    {
        JsClassAttributes { bits: self.bits & other.bits }
    }

    /// The attributes set in either.
    pub fn union(self, other: Self) -> (r: Self)
        ensures
            r@ == self@ | other@,
    {
        JsClassAttributes { bits: self.bits | other.bits }
    }

    /// The attributes set here and not in `other`.
    pub fn difference(self, other: Self) -> (r: Self)
        ensures
            r@ == self@ & !other@,
    {
        JsClassAttributes { bits: self.bits & !other.bits }
    }

    /// The attributes set in exactly one of the two.
    pub fn symmetric_difference(self, other: Self) -> (r: Self)
        ensures
            r@ == self@ ^ other@,
    {
        JsClassAttributes { bits: self.bits ^ other.bits }
    }

    /// The known attributes that are not set here.
    pub fn complement(self) -> (r: Self)
        ensures
            r@ == !self@ & CLASS_ATTRIBUTES_ALL,
    {
        JsClassAttributes { bits: !self.bits & CLASS_ATTRIBUTES_ALL }
    }
}

/// A set of JavaScript property attributes, held as the engine's bit mask.
#[derive(Debug, Clone, Copy, PartialEq, Eq, PartialOrd, Ord, Hash, Structural)]
pub struct JsPropertyAttributes {
    bits: u32,
}

impl View for JsPropertyAttributes {
    type V = u32;

    closed spec fn view(&self) -> u32 {
        self.bits
    }
}

impl JsPropertyAttributes {
    /// The attribute set with no attribute (`kJSPropertyAttributeNone`).
    pub fn none() -> (r: Self)
        ensures
            r@ == 0,
    {
        JsPropertyAttributes { bits: 0 }
    }

    /// `kJSPropertyAttributeReadOnly`.
    pub fn read_only() -> (r: Self)
        ensures
            r@ == PROPERTY_ATTRIBUTE_READ_ONLY,
    {
        JsPropertyAttributes { bits: PROPERTY_ATTRIBUTE_READ_ONLY }
    }

    /// `kJSPropertyAttributeDontEnum`.
    pub fn dont_enum() -> (r: Self)
        ensures
            r@ == PROPERTY_ATTRIBUTE_DONT_ENUM,
    {
        JsPropertyAttributes { bits: PROPERTY_ATTRIBUTE_DONT_ENUM }
    }

    /// `kJSPropertyAttributeDontDelete`.
    pub fn dont_delete() -> (r: Self)
        ensures
            r@ == PROPERTY_ATTRIBUTE_DONT_DELETE,
    {
        JsPropertyAttributes { bits: PROPERTY_ATTRIBUTE_DONT_DELETE }
    }

    /// The empty set.
    pub fn empty() -> (r: Self)
        ensures
            r@ == 0,
    {
        JsPropertyAttributes { bits: 0 }
    }

    /// The set of every known attribute.
    pub fn all() -> (r: Self)
        ensures
            r@ == PROPERTY_ATTRIBUTES_ALL,
    {
        JsPropertyAttributes { bits: PROPERTY_ATTRIBUTES_ALL }
    }

    /// The raw bit mask.
    pub fn bits(&self) -> (r: u32)
        ensures
            r == self@,
    {
        self.bits
    }

    /// The set with exactly these bits, if every bit names a known attribute.
    pub fn from_bits(bits: u32) -> (r: Option<Self>)
        ensures
            r is Some <==> bits & !PROPERTY_ATTRIBUTES_ALL == 0,
            r matches Some(f) ==> f@ == bits,
    {
        if bits & !PROPERTY_ATTRIBUTES_ALL == 0 {
            Some(JsPropertyAttributes { bits })
        } else {
            None
        }
    }

    /// The set of the known attributes among these bits; unknown bits are dropped.
    pub fn from_bits_truncate(bits: u32) -> (r: Self)
        ensures
            r@ == bits & PROPERTY_ATTRIBUTES_ALL,
    {
        JsPropertyAttributes { bits: bits & PROPERTY_ATTRIBUTES_ALL }
    }

    /// The set with exactly these bits, known or not.
    pub fn from_bits_retain(bits: u32) -> (r: Self)
        ensures
            r@ == bits,
    {
        JsPropertyAttributes { bits }
    }

    /// No bit is set.
    pub fn is_empty(&self) -> (r: bool)
        ensures
            r <==> self@ == 0,
    {
        self.bits == 0
    }

    /// Every known attribute is set.
    pub fn is_all(&self) -> (r: bool)
        ensures
            r <==> bits_contain(self@, PROPERTY_ATTRIBUTES_ALL),
            r <==> (self@ | PROPERTY_ATTRIBUTES_ALL) == self@,
    {
        proof {
            law_contains_iff_union_unchanged(self@, PROPERTY_ATTRIBUTES_ALL);
        }
        self.bits & PROPERTY_ATTRIBUTES_ALL == PROPERTY_ATTRIBUTES_ALL
    }

    /// Some attribute of `other` is set here.
    pub fn intersects(&self, other: Self) -> (r: bool)
        ensures
            r <==> bits_intersect(self@, other@),
            r <==> self@ & other@ != 0,
            r <==> (self@ & !other@) != self@,
            r <==> (other@ & !self@) != other@,
    {
        proof {
            law_intersects_iff_removal_changes(self@, other@);
        }
        self.bits & other.bits != 0
    }

    /// Every attribute of `other` is set here.
    pub fn contains(&self, other: Self) -> (r: bool)
        ensures
            r <==> bits_contain(self@, other@),
            r <==> self@ & other@ == other@,
            r <==> (self@ | other@) == self@,
    {
        proof {
            law_contains_iff_union_unchanged(self@, other@);
        }
        self.bits & other.bits == other.bits
    }

    /// Sets the attributes of `other`.
    pub fn insert(&mut self, other: Self)
        ensures
            final(self)@ == old(self)@ | other@,
    {
        self.bits = self.bits | other.bits;
    }

    /// Clears the attributes of `other`.
    pub fn remove(&mut self, other: Self)
        ensures
            final(self)@ == old(self)@ & !other@,
    {
        self.bits = self.bits & !other.bits;
    }

    /// Flips the attributes of `other`.
    pub fn toggle(&mut self, other: Self)
        ensures
            final(self)@ == old(self)@ ^ other@,
    {
        self.bits = self.bits ^ other.bits;
    }

    /// Sets the attributes of `other` when `value` holds, clears them otherwise.
    pub fn set(&mut self, other: Self, value: bool)
        ensures
            final(self)@ == (if value { old(self)@ | other@ } else { old(self)@ & !other@ }),
    {
        if value {
            self.insert(other);
        } else {
            self.remove(other);
        }
    }

    /// The attributes set in both.
    pub fn intersection(self, other: Self) -> (r: Self)
        ensures
            r@ == self@ & other@,
    {
        JsPropertyAttributes { bits: self.bits & other.bits }
    }

    /// The attributes set in either.
    pub fn union(self, other: Self) -> (r: Self)
        ensures
            r@ == self@ | other@,
    {
        JsPropertyAttributes { bits: self.bits | other.bits }
    }

    /// The attributes set here and not in `other`.
    pub fn difference(self, other: Self) -> (r: Self)
        ensures
            r@ == self@ & !other@,
    {
        JsPropertyAttributes { bits: self.bits & !other.bits }
    }

    /// The attributes set in exactly one of the two.
    pub fn symmetric_difference(self, other: Self) -> (r: Self)
        ensures
            r@ == self@ ^ other@,
    {
        JsPropertyAttributes { bits: self.bits ^ other.bits }
    }

    /// The known attributes that are not set here.
    pub fn complement(self) -> (r: Self)
        ensures
            r@ == !self@ & PROPERTY_ATTRIBUTES_ALL,
    {
        JsPropertyAttributes { bits: !self.bits & PROPERTY_ATTRIBUTES_ALL }
    }
}

/// A set contains another exactly when every bit of the other is among its
/// own, that is when adding the other set changes nothing; a set that lacks
/// some bit of the other does not contain it.
pub proof fn law_contains_iff_union_unchanged(a: u32, b: u32)
    ensures
        bits_contain(a, b) <==> (a | b) == a,
        bits_contain(a, b) <==> a & b == b,
        (a & b) != b ==> !bits_contain(a, b),
        bits_contain(a, a),
        bits_contain(a, 0),
{
    assert((a & b == b) <==> ((a | b) == a)) by (bit_vector);
    assert(a & a == a) by (bit_vector);
    assert(a & 0 == 0) by (bit_vector);
}

/// Two sets intersect exactly when they share a bit: removing one from the
/// other then changes it, whichever is removed from which. Intersection does
/// not depend on the order of the operands, a set intersects every non-empty
/// part of itself, and nothing intersects the empty set.
pub proof fn law_intersects_iff_removal_changes(a: u32, b: u32)
    ensures
        bits_intersect(a, b) <==> a & b != 0,
        bits_intersect(a, b) <==> (a & !b) != a,
        bits_intersect(a, b) <==> (b & !a) != b,
        bits_intersect(a, b) == bits_intersect(b, a),
        a != 0 ==> bits_intersect(a, a),
        !bits_intersect(a, 0),
        (a & b) != 0 && (a & b) != b ==> bits_intersect(a, b) && !bits_contain(a, b),
{
    assert((a & b != 0) <==> ((a & !b) != a)) by (bit_vector);
    assert((a & b != 0) <==> ((b & !a) != b)) by (bit_vector);
    assert(a & b == b & a) by (bit_vector);
    assert(a != 0 ==> a & a != 0) by (bit_vector);
    assert(a & 0 == 0) by (bit_vector);
}

/// Inserting a set makes it contained.
pub proof fn law_insert_then_contains(a: u32, b: u32)
    ensures
        bits_contain(a | b, b),
{
    assert((a | b) & b == b) by (bit_vector);
}

/// Removing a set leaves nothing of it behind.
pub proof fn law_remove_then_disjoint(a: u32, b: u32)
    ensures
        !bits_intersect(a & !b, b),
{
    assert((a & !b) & b == 0) by (bit_vector);
}

/// Toggling the same set twice restores the original bits.
pub proof fn law_toggle_twice(a: u32, b: u32)
    ensures
        (a ^ b) ^ b == a,
{
    assert((a ^ b) ^ b == a) by (bit_vector);
}

/// Union does not depend on the order of its operands, and contains both.
pub proof fn law_union_commutes(a: u32, b: u32)
    ensures
        a | b == b | a,
        bits_contain(a | b, a),
        bits_contain(a | b, b),
{
    assert(a | b == b | a) by (bit_vector);
    assert((a | b) & a == a) by (bit_vector);
    assert((a | b) & b == b) by (bit_vector);
}

/// The complement of the complement, taken within the known bits `all`, is the
/// set of known bits of the original.
pub proof fn law_complement_twice(a: u32, all: u32)
    ensures
        !(!a & all) & all == a & all,
{
    assert(!(!a & all) & all == a & all) by (bit_vector);
}

/// Truncating to the known bits twice is the same as truncating once.
pub proof fn law_truncate_idempotent(a: u32, all: u32)
    ensures
        (a & all) & all == a & all,
{
    assert((a & all) & all == a & all) by (bit_vector);
}

} // verus!
