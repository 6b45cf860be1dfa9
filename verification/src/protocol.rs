//! Messages exchanged with websocket clients.
use vstd::prelude::*;
use crate::text::owned;

verus! {

/// How a metric's value is represented on the wire.
#[derive(Debug, Clone, Copy, PartialEq, Eq, Structural)]
pub enum MetricDataType {
    Integer,
    Float,
    Boolean,
    String,
    StringList,
}

/// A metric the server can report, as listed in the catalog.
#[derive(Debug, Clone)]
pub struct CatalogMetric {
    pub id: String,
    pub name: String,
    pub default_unit: String,
    pub available_units: Vec<String>,
    /// A static metric does not change while the server runs: it is sent once per subscribe.
    pub is_static: bool,
    pub data_type: MetricDataType,
}

/// The mathematical content of a catalog entry.
pub struct CatalogMetricView {
    pub id: Seq<char>,
    pub name: Seq<char>,
    pub default_unit: Seq<char>,
    pub available_units: Seq<Seq<char>>,
    pub is_static: bool,
    pub data_type: MetricDataType,
}

/// The views of a vector of strings.
pub open spec fn string_views(v: Seq<String>) -> Seq<Seq<char>> {
    v.map_values(|s: String| s@)
}

impl View for CatalogMetric {
    type V = CatalogMetricView;

    open spec fn view(&self) -> CatalogMetricView {
        CatalogMetricView {
            id: self.id@,
            name: self.name@,
            default_unit: self.default_unit@,
            available_units: string_views(self.available_units@),
            is_static: self.is_static,
            data_type: self.data_type,
        }
    }
}

/// One metric a client asks for in a subscribe message.
#[derive(Debug, Clone)]
pub struct SubscribeEntry {
    pub id: String,
    pub refresh_rate_ms: Option<u64>,
    pub unit: Option<String>,
}

/// A client's subscribe message: it replaces all earlier subscriptions.
#[derive(Debug, Clone)]
pub struct SubscribeMessage {
    pub msg_type: String,
    pub metrics: Vec<SubscribeEntry>,
}

/// The catalog, sent to a client when it connects.
#[derive(Debug, Clone)]
pub struct CatalogMessage {
    pub msg_type: String,
    pub metrics: Vec<CatalogMetric>,
}

impl CatalogMessage {
    pub fn new(metrics: Vec<CatalogMetric>) -> (r: Self)
        ensures
            r.msg_type@ == "catalog"@,
            r.metrics == metrics,
    {
        CatalogMessage { msg_type: owned("catalog"), metrics }
    }
}

/// An error report sent to a client.
#[derive(Debug, Clone)]
pub struct ErrorMessage {
    pub msg_type: String,
    pub message: String,
}

impl ErrorMessage {
    pub fn new(message: String) -> (r: Self)
        ensures
            r.msg_type@ == "error"@,
            r.message == message,
    {
        ErrorMessage { msg_type: owned("error"), message }
    }
}

/// A metric request in the tagged client message format.
#[derive(Debug, Clone)]
pub struct MetricSubscription {
    pub id: String,
    pub refresh_rate_ms: u64,
}

/// The tagged client message format.
#[derive(Debug, Clone)]
pub enum ClientMessage {
    Subscribe { metrics: Vec<MetricSubscription> },
}

} // verus!
