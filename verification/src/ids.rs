//! String identifiers and the keys that address per-slot runtime state.

use vstd::prelude::*;

verus! {

/// An entity of the host world, carried by its stable 64-bit identity.
pub type EntityId = u64;

/// A named interaction channel; interactors and targets only see each other
/// when their channels overlap.
#[derive(Debug, PartialEq, Eq, Hash)]
pub struct InteractionChannel(pub String);

/// A tag carried by an actor or a target.
#[derive(Debug, PartialEq, Eq, Hash)]
pub struct InteractionTag(pub String);

/// Identifier of a custom availability predicate.
#[derive(Debug, PartialEq, Eq, Hash)]
pub struct InteractionPredicateId(pub String);

/// Stable identifier of a slot on a target.
#[derive(Debug, PartialEq, Eq, Hash)]
pub struct InteractionSlotId(pub String);

/// Identifier of one stage of a staged slot.
#[derive(Debug, PartialEq, Eq, Hash)]
pub struct InteractionStageId(pub String);

impl View for InteractionChannel {
    type V = Seq<char>;

    open spec fn view(&self) -> Seq<char> {
        self.0@
    }
}

impl View for InteractionTag {
    type V = Seq<char>;

    open spec fn view(&self) -> Seq<char> {
        self.0@
    }
}

impl View for InteractionPredicateId {
    type V = Seq<char>;

    open spec fn view(&self) -> Seq<char> {
        self.0@
    }
}

impl View for InteractionSlotId {
    type V = Seq<char>;

    open spec fn view(&self) -> Seq<char> {
        self.0@
    }
}

impl View for InteractionStageId {
    type V = Seq<char>;

    open spec fn view(&self) -> Seq<char> {
        self.0@
    }
}

impl Clone for InteractionChannel {
    fn clone(&self) -> (r: Self)
        ensures
            r == *self,
    {
        InteractionChannel(self.0.clone())
    }
}

impl Clone for InteractionTag {
    fn clone(&self) -> (r: Self)
        ensures
            r == *self,
    {
        InteractionTag(self.0.clone())
    }
}

impl Clone for InteractionPredicateId {
    fn clone(&self) -> (r: Self)
        ensures
            r == *self,
    {
        InteractionPredicateId(self.0.clone())
    }
}

impl Clone for InteractionSlotId {
    fn clone(&self) -> (r: Self)
        ensures
            r == *self,
    {
        InteractionSlotId(self.0.clone())
    }
}

impl Clone for InteractionStageId {
    fn clone(&self) -> (r: Self)
        ensures
            r == *self,
    {
        InteractionStageId(self.0.clone())
    }
}

impl InteractionChannel {
    /// The channel every interactor and target starts on.
    pub fn world() -> (r: Self)
        ensures
            r@ == "world"@,
    {
        InteractionChannel("world".to_owned())
    }

    /// Whether two channels carry the same name.
    pub fn same(&self, other: &Self) -> (r: bool)
        ensures
            r == (self@ == other@),
    {
        self.0 == other.0
    }
}

impl Default for InteractionChannel {
    fn default() -> (r: Self)
        ensures
            r@ == "world"@,
    {
        Self::world()
    }
}

impl InteractionTag {
    /// Whether two tags carry the same name.
    pub fn same(&self, other: &Self) -> (r: bool)
        ensures
            r == (self@ == other@),
    {
        self.0 == other.0
    }
}

impl InteractionSlotId {
    /// Whether two slot ids carry the same name.
    pub fn same(&self, other: &Self) -> (r: bool)
        ensures
            r == (self@ == other@),
    {
        self.0 == other.0
    }
}

impl InteractionStageId {
    /// Whether two stage ids carry the same name.
    pub fn same(&self, other: &Self) -> (r: bool)
        ensures
            r == (self@ == other@),
    {
        self.0 == other.0
    }
}

impl From<&str> for InteractionChannel {
    fn from(value: &str) -> (r: Self)
        ensures
            r@ == value@,
    {
        InteractionChannel(value.to_owned())
    }
}

/// The name a `from` call produces is stated on `from` itself; there is no
/// spec-level constructor of a `String` from its characters to state it here.
impl vstd::std_specs::convert::FromSpecImpl<&str> for InteractionChannel {
    open spec fn obeys_from_spec() -> bool {
        false
    }

    open spec fn from_spec(v: &str) -> Self {
        arbitrary()
    }
}

impl From<&str> for InteractionTag {
    fn from(value: &str) -> (r: Self)
        ensures
            r@ == value@,
    {
        InteractionTag(value.to_owned())
    }
}

/// The name a `from` call produces is stated on `from` itself; there is no
/// spec-level constructor of a `String` from its characters to state it here.
impl vstd::std_specs::convert::FromSpecImpl<&str> for InteractionTag {
    open spec fn obeys_from_spec() -> bool {
        false
    }

    open spec fn from_spec(v: &str) -> Self {
        arbitrary()
    }
}

impl From<&str> for InteractionPredicateId {
    fn from(value: &str) -> (r: Self)
        ensures
            r@ == value@,
    {
        InteractionPredicateId(value.to_owned())
    }
}

/// The name a `from` call produces is stated on `from` itself; there is no
/// spec-level constructor of a `String` from its characters to state it here.
impl vstd::std_specs::convert::FromSpecImpl<&str> for InteractionPredicateId {
    open spec fn obeys_from_spec() -> bool {
        false
    }

    open spec fn from_spec(v: &str) -> Self {
        arbitrary()
    }
}

impl From<&str> for InteractionSlotId {
    fn from(value: &str) -> (r: Self)
        ensures
            r@ == value@,
    {
        InteractionSlotId(value.to_owned())
    }
}

/// The name a `from` call produces is stated on `from` itself; there is no
/// spec-level constructor of a `String` from its characters to state it here.
impl vstd::std_specs::convert::FromSpecImpl<&str> for InteractionSlotId {
    open spec fn obeys_from_spec() -> bool {
        false
    }

    open spec fn from_spec(v: &str) -> Self {
        arbitrary()
    }
}

impl From<&str> for InteractionStageId {
    fn from(value: &str) -> (r: Self)
        ensures
            r@ == value@,
    {
        InteractionStageId(value.to_owned())
    }
}

/// The name a `from` call produces is stated on `from` itself; there is no
/// spec-level constructor of a `String` from its characters to state it here.
impl vstd::std_specs::convert::FromSpecImpl<&str> for InteractionStageId {
    open spec fn obeys_from_spec() -> bool {
        false
    }

    open spec fn from_spec(v: &str) -> Self {
        arbitrary()
    }
}

/// Addresses the runtime state of one slot on one target.
#[derive(Debug, PartialEq, Eq, Hash)]
pub struct TargetSlotKey {
    pub target: EntityId,
    pub slot_id: String,
}

impl View for TargetSlotKey {
    type V = (EntityId, Seq<char>);

    open spec fn view(&self) -> (EntityId, Seq<char>) {
        (self.target, self.slot_id@)
    }
}

impl Clone for TargetSlotKey {
    fn clone(&self) -> (r: Self)
        ensures
            r == *self,
    {
        TargetSlotKey { target: self.target, slot_id: self.slot_id.clone() }
    }
}

impl TargetSlotKey {
    pub open spec fn spec_new(target: EntityId, slot_id: InteractionSlotId) -> (EntityId, Seq<char>) {
        (target, slot_id@)
    }

    /// The key of `slot_id` on `target`.
    pub fn new(target: EntityId, slot_id: &InteractionSlotId) -> (r: Self)
        ensures
            r@ == (target, slot_id@),
    {
        TargetSlotKey { target, slot_id: slot_id.0.clone() }
    }
}

/// Addresses the runtime state that one actor holds on one slot.
#[derive(Debug, PartialEq, Eq, Hash)]
pub struct ActorSlotKey {
    pub actor: EntityId,
    pub key: TargetSlotKey,
}

impl View for ActorSlotKey {
    type V = (EntityId, (EntityId, Seq<char>));

    open spec fn view(&self) -> (EntityId, (EntityId, Seq<char>)) {
        (self.actor, self.key@)
    }
}

impl Clone for ActorSlotKey {
    fn clone(&self) -> (r: Self)
        ensures
            r == *self,
    {
        ActorSlotKey { actor: self.actor, key: self.key.clone() }
    }
}

} // verus!
