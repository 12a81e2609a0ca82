//! Dynamically typed values shared by scripts and host code.

use vstd::prelude::*;

verus! {

/// Whether a value (or the binding that holds it) may be written to.
#[derive(Debug, Clone, Copy, PartialEq, Eq, Structural)]
pub enum AccessMode {
    ReadWrite,
    ReadOnly,
}

/// The payload of a [`Dynamic`] value.
#[derive(Debug)]
pub enum Union {
    Unit(()),
    Bool(bool),
    Char(char),
    Int(i64),
    Str(String),
}

/// The run-time type of a payload.
#[derive(Debug, Clone, Copy, PartialEq, Eq, Structural)]
pub enum TypeTag {
    Unit,
    Bool,
    Char,
    Int,
    Str,
}

pub open spec fn union_tag(u: Union) -> TypeTag {
    match u {
        Union::Unit(_) => TypeTag::Unit,
        Union::Bool(_) => TypeTag::Bool,
        Union::Char(_) => TypeTag::Char,
        Union::Int(_) => TypeTag::Int,
        Union::Str(_) => TypeTag::Str,
    }
}

/// A dynamically typed value together with its access mode.
#[derive(Debug)]
pub struct Dynamic {
    pub value: Union,
    pub access: AccessMode,
}

impl Dynamic {
    /// The unit value, writable.
    pub open spec fn spec_unit() -> Dynamic {
        Dynamic { value: Union::Unit(()), access: AccessMode::ReadWrite }
    }

    pub fn unit() -> (r: Dynamic)
        ensures
            r == Dynamic::spec_unit(),
    {
        Dynamic { value: Union::Unit(()), access: AccessMode::ReadWrite }
    }

    /// Wrap a host value; the result is writable.
    pub fn from<T: Variant>(value: T) -> (r: Dynamic)
        ensures
            r.value == value.spec_to_union(),
            r.access == AccessMode::ReadWrite,
    {
        Dynamic { value: value.into_union(), access: AccessMode::ReadWrite }
    }

    /// The run-time type of the payload.
    pub fn type_tag(&self) -> (r: TypeTag)
        ensures
            r == union_tag(self.value),
    {
        match &self.value {
            Union::Unit(_) => TypeTag::Unit,
            Union::Bool(_) => TypeTag::Bool,
            Union::Char(_) => TypeTag::Char,
            Union::Int(_) => TypeTag::Int,
            Union::Str(_) => TypeTag::Str,
        }
    }

    pub fn access_mode(&self) -> (r: AccessMode)
        ensures
            r == self.access,
    {
        self.access
    }

    pub fn set_access_mode(&mut self, access: AccessMode)
        ensures
            final(self).value == old(self).value,
            final(self).access == access,
    {
        self.access = access;
    }

    pub fn is_read_only(&self) -> (r: bool)
        ensures
            r == (self.access == AccessMode::ReadOnly),
    {
        match self.access {
            AccessMode::ReadOnly => true,
            AccessMode::ReadWrite => false,
        }
    }

    /// An owned copy of this value. Values here hold no shared wrapper, so
    /// flattening leaves the payload as it is.
    pub fn flatten_clone(&self) -> (r: Dynamic)
        ensures
            r == *self,
    {
        let value = match &self.value {
            Union::Unit(u) => Union::Unit(*u),
            Union::Bool(b) => Union::Bool(*b),
            Union::Char(c) => Union::Char(*c),
            Union::Int(i) => Union::Int(*i),
            Union::Str(s) => Union::Str(s.clone()),
        };
        Dynamic { value, access: self.access }
    }

    /// Try to read this value as a host type `T`, cloning the payload.
    pub fn try_cast<T: Variant>(&self) -> (r: Option<T>)
        ensures
            r == T::spec_from_union(self.value),
    {
        T::from_union(self.flatten_clone().value)
    }
}

/// A host type that can live inside a [`Dynamic`].
pub trait Variant: Sized {
    /// The payload that holds a value of this type.
    spec fn spec_to_union(self) -> Union;

    /// The value of this type held by a payload, if it holds one.
    spec fn spec_from_union(u: Union) -> Option<Self>;

    /// The run-time type of the payloads of this type.
    spec fn spec_type_tag() -> TypeTag;

    fn type_tag() -> (r: TypeTag)
        ensures
            r == Self::spec_type_tag(),
    ;

    /// A payload holds a value of this type exactly when it has this type's
    /// tag.
    proof fn lemma_tag(u: Union)
        ensures
            Self::spec_from_union(u) is Some <==> union_tag(u) == Self::spec_type_tag(),
    ;

    /// Reading back what was stored gives the stored value.
    proof fn lemma_round_trip(self)
        ensures
            Self::spec_from_union(self.spec_to_union()) == Some(self),
    ;

    fn into_union(self) -> (r: Union)
        ensures
            r == self.spec_to_union(),
    ;

    fn from_union(u: Union) -> (r: Option<Self>)
        ensures
            r == Self::spec_from_union(u),
    ;

    /// An exclusive view of the payload of `d` as this type.
    fn downcast_mut(d: &mut Dynamic) -> (r: &mut Self)
        requires
            Self::spec_from_union(old(d).value) is Some,
        ensures
            Some(*r) == Self::spec_from_union(old(d).value),
            final(d).access == old(d).access,
            final(d).value == (*final(r)).spec_to_union(),
    ;
}

impl Variant for () {
    open spec fn spec_type_tag() -> TypeTag {
        TypeTag::Unit
    }

    fn type_tag() -> (r: TypeTag) {
        TypeTag::Unit
    }

    proof fn lemma_tag(u: Union) {
    }

    open spec fn spec_to_union(self) -> Union {
        Union::Unit(())
    }

    open spec fn spec_from_union(u: Union) -> Option<()> {
        match u {
            Union::Unit(x) => Some(x),
            _ => None,
        }
    }

    proof fn lemma_round_trip(self) {
    }

    fn into_union(self) -> (r: Union) {
        Union::Unit(self)
    }

    fn from_union(u: Union) -> (r: Option<()>) {
        match u {
            Union::Unit(x) => Some(x),
            _ => None,
        }
    }

    fn downcast_mut(d: &mut Dynamic) -> (r: &mut ()) {
        match &mut d.value {
            Union::Unit(x) => x,
            _ => unreached(),
        }
    }
}

impl Variant for bool {
    open spec fn spec_type_tag() -> TypeTag {
        TypeTag::Bool
    }

    fn type_tag() -> (r: TypeTag) {
        TypeTag::Bool
    }

    proof fn lemma_tag(u: Union) {
    }

    open spec fn spec_to_union(self) -> Union {
        Union::Bool(self)
    }

    open spec fn spec_from_union(u: Union) -> Option<bool> {
        match u {
            Union::Bool(x) => Some(x),
            _ => None,
        }
    }

    proof fn lemma_round_trip(self) {
    }

    fn into_union(self) -> (r: Union) {
        Union::Bool(self)
    }

    fn from_union(u: Union) -> (r: Option<bool>) {
        match u {
            Union::Bool(x) => Some(x),
            _ => None,
        }
    }

    fn downcast_mut(d: &mut Dynamic) -> (r: &mut bool) {
        match &mut d.value {
            Union::Bool(x) => x,
            _ => unreached(),
        }
    }
}

impl Variant for char {
    open spec fn spec_type_tag() -> TypeTag {
        TypeTag::Char
    }

    fn type_tag() -> (r: TypeTag) {
        TypeTag::Char
    }

    proof fn lemma_tag(u: Union) {
    }

    open spec fn spec_to_union(self) -> Union {
        Union::Char(self)
    }

    open spec fn spec_from_union(u: Union) -> Option<char> {
        match u {
            Union::Char(x) => Some(x),
            _ => None,
        }
    }

    proof fn lemma_round_trip(self) {
    }

    fn into_union(self) -> (r: Union) {
        Union::Char(self)
    }

    fn from_union(u: Union) -> (r: Option<char>) {
        match u {
            Union::Char(x) => Some(x),
            _ => None,
        }
    }

    fn downcast_mut(d: &mut Dynamic) -> (r: &mut char) {
        match &mut d.value {
            Union::Char(x) => x,
            _ => unreached(),
        }
    }
}

impl Variant for i64 {
    open spec fn spec_type_tag() -> TypeTag {
        TypeTag::Int
    }

    fn type_tag() -> (r: TypeTag) {
        TypeTag::Int
    }

    proof fn lemma_tag(u: Union) {
    }

    open spec fn spec_to_union(self) -> Union {
        Union::Int(self)
    }

    open spec fn spec_from_union(u: Union) -> Option<i64> {
        match u {
            Union::Int(x) => Some(x),
            _ => None,
        }
    }

    proof fn lemma_round_trip(self) {
    }

    fn into_union(self) -> (r: Union) {
        Union::Int(self)
    }

    fn from_union(u: Union) -> (r: Option<i64>) {
        match u {
            Union::Int(x) => Some(x),
            _ => None,
        }
    }

    fn downcast_mut(d: &mut Dynamic) -> (r: &mut i64) {
        match &mut d.value {
            Union::Int(x) => x,
            _ => unreached(),
        }
    }
}

impl Variant for String {
    open spec fn spec_type_tag() -> TypeTag {
        TypeTag::Str
    }

    fn type_tag() -> (r: TypeTag) {
        TypeTag::Str
    }

    proof fn lemma_tag(u: Union) {
    }

    open spec fn spec_to_union(self) -> Union {
        Union::Str(self)
    }

    open spec fn spec_from_union(u: Union) -> Option<String> {
        match u {
            Union::Str(x) => Some(x),
            _ => None,
        }
    }

    proof fn lemma_round_trip(self) {
    }

    fn into_union(self) -> (r: Union) {
        Union::Str(self)
    }

    fn from_union(u: Union) -> (r: Option<String>) {
        match u {
            Union::Str(x) => Some(x),
            _ => None,
        }
    }

    fn downcast_mut(d: &mut Dynamic) -> (r: &mut String) {
        match &mut d.value {
            Union::Str(x) => x,
            _ => unreached(),
        }
    }
}

} // verus!
