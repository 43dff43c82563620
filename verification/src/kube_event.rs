//! Kubernetes events that report what the operator did.
use vstd::prelude::*;
use crate::strings::{hex, u64_to_hex};
use crate::strmap::opt_view;

verus! {

/// The type of an event.
#[derive(Clone, Copy, Debug, PartialEq, Eq, Structural)]
pub enum Type {
    Normal,
    Warning,
}

impl Type {
    pub fn to_string(&self) -> (s: String)
        ensures
            s@ == match self {
                Type::Normal => "Normal"@,
                Type::Warning => "Warning"@,
            },
    {
        match self {
            Type::Normal => "Normal".to_string(),
            Type::Warning => "Warning".to_string(),
        }
    }
}

/// What an event reports.
#[derive(Debug)]
pub struct Info {
    pub action: String,
    pub message: String,
    pub reason: String,
}

/// The object an event is about.
#[derive(Debug)]
pub struct ObjectReference {
    pub api_version: Option<String>,
    pub kind: Option<String>,
    pub name: Option<String>,
    pub field_path: Option<String>,
    pub namespace: Option<String>,
    pub resource_version: Option<String>,
    pub uid: Option<String>,
}

/// An event of the cluster.
#[derive(Debug)]
pub struct KubeEvent {
    pub name: String,
    pub namespace: Option<String>,
    pub involved_object: ObjectReference,
    pub reporting_component: String,
    pub reporting_instance: String,
    pub message: String,
    pub reason: String,
    pub count: i32,
    pub type_: String,
    pub action: Option<String>,
    /// When the event was first seen, in nanoseconds since the epoch.
    pub first_timestamp: Option<i64>,
    /// When the event was last seen, in nanoseconds since the epoch.
    pub last_timestamp: Option<i64>,
}

/// The emitter of events in a namespace.
#[derive(Debug)]
pub struct Event {
    pub namespace: String,
    /// Name of the controller that emitted this Event, e.g. "oam.dev/rudr"
    pub reporting_component: Option<String>,
    /// ID of the controller instance
    pub reporting_instance: Option<String>,
}

/// The name of an event about an object at a time: the object's name, a dot,
/// and the time in nanoseconds in hexadecimal, as its bits read unsigned.
pub open spec fn event_name(object_name: Seq<char>, now_nanos: i64) -> Seq<char> {
    object_name + "."@ + hex((now_nanos as u64) as nat)
}

/// `e` is the event about `involved_object` at `now_nanos`: counted once,
/// first and last seen then, named by the object and the time, with the
/// reporter given, or empty where none is.
pub open spec fn event_made(
    e: KubeEvent,
    now_nanos: i64,
    namespace: Seq<char>,
    type_: Type,
    info: Info,
    involved_object: ObjectReference,
    reporting_component: Option<String>,
    reporting_instance: Option<String>,
) -> bool {
    &&& involved_object.name matches Some(n) && e.name@ == event_name(n@, now_nanos)
    &&& opt_view(e.namespace) == Some(namespace)
    &&& e.involved_object == involved_object
    &&& e.reporting_component@ == match reporting_component {
        Some(r) => r@,
        None => Seq::<char>::empty(),
    }
    &&& e.reporting_instance@ == match reporting_instance {
        Some(r) => r@,
        None => Seq::<char>::empty(),
    }
    &&& e.message == info.message
    &&& e.reason == info.reason
    &&& e.count == 1
    &&& e.type_@ == match type_ {
        Type::Normal => "Normal"@,
        Type::Warning => "Warning"@,
    }
    &&& e.action == Some(info.action)
    &&& e.first_timestamp == Some(now_nanos)
    &&& e.last_timestamp == Some(now_nanos)
}

/// Calls `chrono::Utc::now().timestamp_nanos_opt()`: the time now in
/// nanoseconds since the epoch, none outside the years `i64` nanoseconds
/// reach. Which time it is depends on the clock, so nothing is said of it.
#[verifier::external_body]
fn now_nanos() -> (r: Option<i64>) {
    chrono::Utc::now().timestamp_nanos_opt()
}

impl Event {
    /// An emitter of events in a namespace, with no reporter set.
    pub fn new(namespace: String) -> (e: Event)
        ensures
            e.namespace == namespace,
            e.reporting_component is None,
            e.reporting_instance is None,
    {
        Event { namespace, reporting_component: None, reporting_instance: None }
    }

    /// The event about an object at a time: counted once, first and last seen
    /// then, named by the object and the time.
    pub fn make_event(
        now_nanos: i64,
        namespace: String,
        type_: Type,
        info: Info,
        involved_object: ObjectReference,
        reporting_component: Option<String>,
        reporting_instance: Option<String>,
    ) -> (e: KubeEvent)
        requires
            involved_object.name is Some,
        ensures
            event_made(
                e,
                now_nanos,
                namespace@,
                type_,
                info,
                involved_object,
                reporting_component,
                reporting_instance,
            ),
    {
        let object_name = match &involved_object.name {
            Some(n) => n.clone(),
            None => String::new(),
        };
        let bits = now_nanos as u64;
        let name = object_name.concat(".").concat(u64_to_hex(bits).as_str());
        KubeEvent {
            name,
            namespace: Some(namespace),
            involved_object,
            reporting_component: match reporting_component {
                Some(r) => r,
                None => String::new(),
            },
            reporting_instance: match reporting_instance {
                Some(r) => r,
                None => String::new(),
            },
            message: info.message,
            reason: info.reason,
            count: 1,
            type_: type_.to_string(),
            action: Some(info.action),
            first_timestamp: Some(now_nanos),
            last_timestamp: Some(now_nanos),
        }
    }

    /// The event this emitter reports about an object now, with its own
    /// namespace and reporter; none where the clock reads outside the years
    /// that nanoseconds in an `i64` reach.
    pub fn event_now(&self, type_: Type, info: Info, involved_object: ObjectReference) -> (r: Option<KubeEvent>)
        requires
            involved_object.name is Some,
        ensures
            r matches Some(e) ==> (e.first_timestamp matches Some(t) && event_made(
                e,
                t,
                self.namespace@,
                type_,
                info,
                involved_object,
                self.reporting_component,
                self.reporting_instance,
            )),
    {
        match now_nanos() {
            Some(t) => Some(
                Event::make_event(
                    t,
                    self.namespace.clone(),
                    type_,
                    info,
                    involved_object,
                    self.reporting_component.clone(),
                    self.reporting_instance.clone(),
                ),
            ),
            None => None,
        }
    }
}

} // verus!
