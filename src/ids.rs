//! Identifiers. Each kind of node, connection and item has its own nominal
//! type, so that an identifier of one kind cannot stand for another even
//! where the text is the same.
use vstd::prelude::*;

use crate::id_map::IdKey;

verus! {

/// Identifier of a track node within a task.
#[derive(Debug, Eq, Hash)]
pub struct TrackNodeId(pub String);

impl TrackNodeId {
    pub fn new(id: String) -> (r: Self)
        ensures
            r@ == id@,
    {
        TrackNodeId(id)
    }

    pub fn as_str(&self) -> (r: &str)
        ensures
            r@ == self@,
    {
        self.0.as_str()
    }
}

impl View for TrackNodeId {
    type V = Seq<char>;

    open spec fn view(&self) -> Seq<char> {
        self.0@
    }
}

impl Clone for TrackNodeId {
    fn clone(&self) -> (r: Self)
        ensures
            r == *self,
    {
        TrackNodeId(self.0.clone())
    }
}

impl PartialEq for TrackNodeId {
    fn eq(&self, other: &Self) -> (r: bool) {
        self.0 == other.0
    }
}

impl vstd::std_specs::cmp::PartialEqSpecImpl for TrackNodeId {
    open spec fn obeys_eq_spec() -> bool {
        true
    }

    open spec fn eq_spec(&self, other: &Self) -> bool {
        self@ == other@
    }
}

impl IdKey for TrackNodeId {
    fn same_id(&self, other: &Self) -> (r: bool) {
        self.0 == other.0
    }

    fn clone_key(&self) -> (r: Self) {
        self.clone()
    }
}

/// A secret key that grants permissions on a task.
#[derive(Debug, Eq, Hash)]
pub struct SecureKey(pub String);

impl SecureKey {
    pub fn new(id: String) -> (r: Self)
        ensures
            r@ == id@,
    {
        SecureKey(id)
    }

    pub fn as_str(&self) -> (r: &str)
        ensures
            r@ == self@,
    {
        self.0.as_str()
    }
}

impl View for SecureKey {
    type V = Seq<char>;

    open spec fn view(&self) -> Seq<char> {
        self.0@
    }
}

impl Clone for SecureKey {
    fn clone(&self) -> (r: Self)
        ensures
            r == *self,
    {
        SecureKey(self.0.clone())
    }
}

impl PartialEq for SecureKey {
    fn eq(&self, other: &Self) -> (r: bool) {
        self.0 == other.0
    }
}

impl vstd::std_specs::cmp::PartialEqSpecImpl for SecureKey {
    open spec fn obeys_eq_spec() -> bool {
        true
    }

    open spec fn eq_spec(&self, other: &Self) -> bool {
        self@ == other@
    }
}

impl IdKey for SecureKey {
    fn same_id(&self, other: &Self) -> (r: bool) {
        self.0 == other.0
    }

    fn clone_key(&self) -> (r: Self) {
        self.clone()
    }
}

/// Identifier of a domain, the site that executes tasks.
#[derive(Debug, Eq, Hash)]
pub struct DomainId(pub String);

impl DomainId {
    pub fn new(id: String) -> (r: Self)
        ensures
            r@ == id@,
    {
        DomainId(id)
    }

    pub fn as_str(&self) -> (r: &str)
        ensures
            r@ == self@,
    {
        self.0.as_str()
    }
}

impl View for DomainId {
    type V = Seq<char>;

    open spec fn view(&self) -> Seq<char> {
        self.0@
    }
}

impl Clone for DomainId {
    fn clone(&self) -> (r: Self)
        ensures
            r == *self,
    {
        DomainId(self.0.clone())
    }
}

impl PartialEq for DomainId {
    fn eq(&self, other: &Self) -> (r: bool) {
        self.0 == other.0
    }
}

impl vstd::std_specs::cmp::PartialEqSpecImpl for DomainId {
    open spec fn obeys_eq_spec() -> bool {
        true
    }

    open spec fn eq_spec(&self, other: &Self) -> bool {
        self@ == other@
    }
}

impl IdKey for DomainId {
    fn same_id(&self, other: &Self) -> (r: bool) {
        self.0 == other.0
    }

    fn clone_key(&self) -> (r: Self) {
        self.clone()
    }
}

/// Identifier of a mixer node within a task.
#[derive(Debug, Eq, Hash)]
pub struct MixerNodeId(pub String);

impl MixerNodeId {
    pub fn new(id: String) -> (r: Self)
        ensures
            r@ == id@,
    {
        MixerNodeId(id)
    }

    pub fn as_str(&self) -> (r: &str)
        ensures
            r@ == self@,
    {
        self.0.as_str()
    }
}

impl View for MixerNodeId {
    type V = Seq<char>;

    open spec fn view(&self) -> Seq<char> {
        self.0@
    }
}

impl Clone for MixerNodeId {
    fn clone(&self) -> (r: Self)
        ensures
            r == *self,
    {
        MixerNodeId(self.0.clone())
    }
}

impl PartialEq for MixerNodeId {
    fn eq(&self, other: &Self) -> (r: bool) {
        self.0 == other.0
    }
}

impl vstd::std_specs::cmp::PartialEqSpecImpl for MixerNodeId {
    open spec fn obeys_eq_spec() -> bool {
        true
    }

    open spec fn eq_spec(&self, other: &Self) -> bool {
        self@ == other@
    }
}

impl IdKey for MixerNodeId {
    fn same_id(&self, other: &Self) -> (r: bool) {
        self.0 == other.0
    }

    fn clone_key(&self) -> (r: Self) {
        self.clone()
    }
}

/// Identifier of a fixed (hardware) instance node within a task.
#[derive(Debug, Eq, Hash)]
pub struct FixedInstanceNodeId(pub String);

impl FixedInstanceNodeId {
    pub fn new(id: String) -> (r: Self)
        ensures
            r@ == id@,
    {
        FixedInstanceNodeId(id)
    }

    pub fn as_str(&self) -> (r: &str)
        ensures
            r@ == self@,
    {
        self.0.as_str()
    }
}

impl View for FixedInstanceNodeId {
    type V = Seq<char>;

    open spec fn view(&self) -> Seq<char> {
        self.0@
    }
}

impl Clone for FixedInstanceNodeId {
    fn clone(&self) -> (r: Self)
        ensures
            r == *self,
    {
        FixedInstanceNodeId(self.0.clone())
    }
}

impl PartialEq for FixedInstanceNodeId {
    fn eq(&self, other: &Self) -> (r: bool) {
        self.0 == other.0
    }
}

impl vstd::std_specs::cmp::PartialEqSpecImpl for FixedInstanceNodeId {
    open spec fn obeys_eq_spec() -> bool {
        true
    }

    open spec fn eq_spec(&self, other: &Self) -> bool {
        self@ == other@
    }
}

impl IdKey for FixedInstanceNodeId {
    fn same_id(&self, other: &Self) -> (r: bool) {
        self.0 == other.0
    }

    fn clone_key(&self) -> (r: Self) {
        self.clone()
    }
}

/// Identifier of a dynamic (software) instance node within a task.
#[derive(Debug, Eq, Hash)]
pub struct DynamicInstanceNodeId(pub String);

impl DynamicInstanceNodeId {
    pub fn new(id: String) -> (r: Self)
        ensures
            r@ == id@,
    {
        DynamicInstanceNodeId(id)
    }

    pub fn as_str(&self) -> (r: &str)
        ensures
            r@ == self@,
    {
        self.0.as_str()
    }
}

impl View for DynamicInstanceNodeId {
    type V = Seq<char>;

    open spec fn view(&self) -> Seq<char> {
        self.0@
    }
}

impl Clone for DynamicInstanceNodeId {
    fn clone(&self) -> (r: Self)
        ensures
            r == *self,
    {
        DynamicInstanceNodeId(self.0.clone())
    }
}

impl PartialEq for DynamicInstanceNodeId {
    fn eq(&self, other: &Self) -> (r: bool) {
        self.0 == other.0
    }
}

impl vstd::std_specs::cmp::PartialEqSpecImpl for DynamicInstanceNodeId {
    open spec fn obeys_eq_spec() -> bool {
        true
    }

    open spec fn eq_spec(&self, other: &Self) -> bool {
        self@ == other@
    }
}

impl IdKey for DynamicInstanceNodeId {
    fn same_id(&self, other: &Self) -> (r: bool) {
        self.0 == other.0
    }

    fn clone_key(&self) -> (r: Self) {
        self.clone()
    }
}

/// Identifier of a connection between two node pads.
#[derive(Debug, Eq, Hash)]
pub struct NodeConnectionId(pub String);

impl NodeConnectionId {
    pub fn new(id: String) -> (r: Self)
        ensures
            r@ == id@,
    {
        NodeConnectionId(id)
    }

    pub fn as_str(&self) -> (r: &str)
        ensures
            r@ == self@,
    {
        self.0.as_str()
    }
}

impl View for NodeConnectionId {
    type V = Seq<char>;

    open spec fn view(&self) -> Seq<char> {
        self.0@
    }
}

impl Clone for NodeConnectionId {
    fn clone(&self) -> (r: Self)
        ensures
            r == *self,
    {
        NodeConnectionId(self.0.clone())
    }
}

impl PartialEq for NodeConnectionId {
    fn eq(&self, other: &Self) -> (r: bool) {
        self.0 == other.0
    }
}

impl vstd::std_specs::cmp::PartialEqSpecImpl for NodeConnectionId {
    open spec fn obeys_eq_spec() -> bool {
        true
    }

    open spec fn eq_spec(&self, other: &Self) -> bool {
        self@ == other@
    }
}

impl IdKey for NodeConnectionId {
    fn same_id(&self, other: &Self) -> (r: bool) {
        self.0 == other.0
    }

    fn clone_key(&self) -> (r: Self) {
        self.clone()
    }
}

/// Identifier of a media item placed on a track.
#[derive(Debug, Eq, Hash)]
pub struct TrackMediaId(pub String);

impl TrackMediaId {
    pub fn new(id: String) -> (r: Self)
        ensures
            r@ == id@,
    {
        TrackMediaId(id)
    }

    pub fn as_str(&self) -> (r: &str)
        ensures
            r@ == self@,
    {
        self.0.as_str()
    }
}

impl View for TrackMediaId {
    type V = Seq<char>;

    open spec fn view(&self) -> Seq<char> {
        self.0@
    }
}

impl Clone for TrackMediaId {
    fn clone(&self) -> (r: Self)
        ensures
            r == *self,
    {
        TrackMediaId(self.0.clone())
    }
}

impl PartialEq for TrackMediaId {
    fn eq(&self, other: &Self) -> (r: bool) {
        self.0 == other.0
    }
}

impl vstd::std_specs::cmp::PartialEqSpecImpl for TrackMediaId {
    open spec fn obeys_eq_spec() -> bool {
        true
    }

    open spec fn eq_spec(&self, other: &Self) -> bool {
        self@ == other@
    }
}

impl IdKey for TrackMediaId {
    fn same_id(&self, other: &Self) -> (r: bool) {
        self.0 == other.0
    }

    fn clone_key(&self) -> (r: Self) {
        self.clone()
    }
}

/// Identifier of a stored media object that a track item plays.
#[derive(Debug, Eq, Hash)]
pub struct MediaObjectId(pub String);

impl MediaObjectId {
    pub fn new(id: String) -> (r: Self)
        ensures
            r@ == id@,
    {
        MediaObjectId(id)
    }

    pub fn as_str(&self) -> (r: &str)
        ensures
            r@ == self@,
    {
        self.0.as_str()
    }
}

impl View for MediaObjectId {
    type V = Seq<char>;

    open spec fn view(&self) -> Seq<char> {
        self.0@
    }
}

impl Clone for MediaObjectId {
    fn clone(&self) -> (r: Self)
        ensures
            r == *self,
    {
        MediaObjectId(self.0.clone())
    }
}

impl PartialEq for MediaObjectId {
    fn eq(&self, other: &Self) -> (r: bool) {
        self.0 == other.0
    }
}

impl vstd::std_specs::cmp::PartialEqSpecImpl for MediaObjectId {
    open spec fn obeys_eq_spec() -> bool {
        true
    }

    open spec fn eq_spec(&self, other: &Self) -> bool {
        self@ == other@
    }
}

impl IdKey for MediaObjectId {
    fn same_id(&self, other: &Self) -> (r: bool) {
        self.0 == other.0
    }

    fn clone_key(&self) -> (r: Self) {
        self.clone()
    }
}

/// Identifier of a parameter of a processing model.
#[derive(Debug, Eq, Hash)]
pub struct ParameterId(pub String);

impl ParameterId {
    pub fn new(id: String) -> (r: Self)
        ensures
            r@ == id@,
    {
        ParameterId(id)
    }

    pub fn as_str(&self) -> (r: &str)
        ensures
            r@ == self@,
    {
        self.0.as_str()
    }
}

impl View for ParameterId {
    type V = Seq<char>;

    open spec fn view(&self) -> Seq<char> {
        self.0@
    }
}

impl Clone for ParameterId {
    fn clone(&self) -> (r: Self)
        ensures
            r == *self,
    {
        ParameterId(self.0.clone())
    }
}

impl PartialEq for ParameterId {
    fn eq(&self, other: &Self) -> (r: bool) {
        self.0 == other.0
    }
}

impl vstd::std_specs::cmp::PartialEqSpecImpl for ParameterId {
    open spec fn obeys_eq_spec() -> bool {
        true
    }

    open spec fn eq_spec(&self, other: &Self) -> bool {
        self@ == other@
    }
}

impl IdKey for ParameterId {
    fn same_id(&self, other: &Self) -> (r: bool) {
        self.0 == other.0
    }

    fn clone_key(&self) -> (r: Self) {
        self.clone()
    }
}

/// Identifier of a report of a processing model.
#[derive(Debug, Eq, Hash)]
pub struct ReportId(pub String);

impl ReportId {
    pub fn new(id: String) -> (r: Self)
        ensures
            r@ == id@,
    {
        ReportId(id)
    }

    pub fn as_str(&self) -> (r: &str)
        ensures
            r@ == self@,
    {
        self.0.as_str()
    }
}

impl View for ReportId {
    type V = Seq<char>;

    open spec fn view(&self) -> Seq<char> {
        self.0@
    }
}

impl Clone for ReportId {
    fn clone(&self) -> (r: Self)
        ensures
            r == *self,
    {
        ReportId(self.0.clone())
    }
}

impl PartialEq for ReportId {
    fn eq(&self, other: &Self) -> (r: bool) {
        self.0 == other.0
    }
}

impl vstd::std_specs::cmp::PartialEqSpecImpl for ReportId {
    open spec fn obeys_eq_spec() -> bool {
        true
    }

    open spec fn eq_spec(&self, other: &Self) -> bool {
        self@ == other@
    }
}

impl IdKey for ReportId {
    fn same_id(&self, other: &Self) -> (r: bool) {
        self.0 == other.0
    }

    fn clone_key(&self) -> (r: Self) {
        self.clone()
    }
}

/// Identifier of a processing model: its manufacturer and name.
#[derive(Debug, Eq, Hash)]
pub struct ModelId {
    pub manufacturer: String,
    pub name: String,
}

impl ModelId {
    pub fn new(manufacturer: String, name: String) -> (r: Self)
        ensures
            r.manufacturer == manufacturer,
            r.name == name,
    {
        ModelId { manufacturer, name }
    }

    /// The fixed instance `instance` of this model.
    pub fn instance(self, instance: String) -> (r: FixedInstanceId)
        ensures
            r.manufacturer == self.manufacturer,
            r.name == self.name,
            r.instance == instance,
    {
        FixedInstanceId { manufacturer: self.manufacturer, name: self.name, instance }
    }
}

impl View for ModelId {
    type V = (Seq<char>, Seq<char>);

    open spec fn view(&self) -> (Seq<char>, Seq<char>) {
        (self.manufacturer@, self.name@)
    }
}

impl Clone for ModelId {
    fn clone(&self) -> (r: Self)
        ensures
            r == *self,
    {
        ModelId { manufacturer: self.manufacturer.clone(), name: self.name.clone() }
    }
}

impl PartialEq for ModelId {
    fn eq(&self, other: &Self) -> (r: bool) {
        self.manufacturer == other.manufacturer && self.name == other.name
    }
}

impl vstd::std_specs::cmp::PartialEqSpecImpl for ModelId {
    open spec fn obeys_eq_spec() -> bool {
        true
    }

    open spec fn eq_spec(&self, other: &Self) -> bool {
        self@ == other@
    }
}

impl IdKey for ModelId {
    fn same_id(&self, other: &Self) -> (r: bool) {
        self.manufacturer == other.manufacturer && self.name == other.name
    }

    fn clone_key(&self) -> (r: Self) {
        self.clone()
    }
}

/// Identifier of a physical unit: the model it is an instance of, and which
/// instance.
#[derive(Debug, Eq, Hash)]
pub struct FixedInstanceId {
    pub manufacturer: String,
    pub name: String,
    pub instance: String,
}

impl FixedInstanceId {
    pub fn new(manufacturer: String, name: String, instance: String) -> (r: Self)
        ensures
            r.manufacturer == manufacturer,
            r.name == name,
            r.instance == instance,
    {
        FixedInstanceId { manufacturer, name, instance }
    }

    /// The model that this unit is an instance of.
    pub open spec fn spec_model_id(&self) -> ModelId {
        ModelId { manufacturer: self.manufacturer, name: self.name }
    }

    pub fn model_id(&self) -> (r: ModelId)
        ensures
            r == self.spec_model_id(),
    {
        ModelId { manufacturer: self.manufacturer.clone(), name: self.name.clone() }
    }

    pub fn from_model_id(model_id: ModelId, instance: String) -> (r: Self)
        ensures
            r.spec_model_id() == model_id,
            r.instance == instance,
    {
        model_id.instance(instance)
    }
}

impl View for FixedInstanceId {
    type V = (Seq<char>, Seq<char>, Seq<char>);

    open spec fn view(&self) -> (Seq<char>, Seq<char>, Seq<char>) {
        (self.manufacturer@, self.name@, self.instance@)
    }
}

impl Clone for FixedInstanceId {
    fn clone(&self) -> (r: Self)
        ensures
            r == *self,
    {
        FixedInstanceId {
            manufacturer: self.manufacturer.clone(),
            name: self.name.clone(),
            instance: self.instance.clone(),
        }
    }
}

impl PartialEq for FixedInstanceId {
    fn eq(&self, other: &Self) -> (r: bool) {
        self.manufacturer == other.manufacturer && self.name == other.name && self.instance
            == other.instance
    }
}

impl vstd::std_specs::cmp::PartialEqSpecImpl for FixedInstanceId {
    open spec fn obeys_eq_spec() -> bool {
        true
    }

    open spec fn eq_spec(&self, other: &Self) -> bool {
        self@ == other@
    }
}

impl IdKey for FixedInstanceId {
    fn same_id(&self, other: &Self) -> (r: bool) {
        self.manufacturer == other.manufacturer && self.name == other.name && self.instance
            == other.instance
    }

    fn clone_key(&self) -> (r: Self) {
        self.clone()
    }
}

} // verus!
