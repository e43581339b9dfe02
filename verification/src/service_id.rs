use vstd::prelude::*;
use vstd::string::*;

verus! {

/// Identifiers for all managed services.
///
/// Used as keys when referencing services throughout the process manager
/// and any associated state maps.
#[derive(Clone, Copy, Debug, PartialEq, Eq, Structural, Hash)]
pub enum ServiceId {
    Mosquitto,
    MqttClient,
    Http,
    Gateway,
    CloudGateway,
}

/// Number of distinct service identifiers.
pub const SERVICE_COUNT: usize = 5;

impl ServiceId {
    /// Position of the identifier in the canonical order of all identifiers.
    pub open spec fn rank(self) -> int {
        match self {
            ServiceId::Mosquitto => 0,
            ServiceId::MqttClient => 1,
            ServiceId::Http => 2,
            ServiceId::Gateway => 3,
            ServiceId::CloudGateway => 4,
        }
    }

    /// The identifier at a given rank.
    pub open spec fn at_rank(r: int) -> ServiceId {
        if r == 0 {
            ServiceId::Mosquitto
        } else if r == 1 {
            ServiceId::MqttClient
        } else if r == 2 {
            ServiceId::Http
        } else if r == 3 {
            ServiceId::Gateway
        } else {
            ServiceId::CloudGateway
        }
    }

    /// The name under which the identifier is shown to operators
    /// (the variant's name).
    pub open spec fn name_view(self) -> Seq<char> {
        match self {
            ServiceId::Mosquitto => "Mosquitto"@,
            ServiceId::MqttClient => "MqttClient"@,
            ServiceId::Http => "Http"@,
            ServiceId::Gateway => "Gateway"@,
            ServiceId::CloudGateway => "CloudGateway"@,
        }
    }

    pub fn index(&self) -> (r: usize)
        ensures
            r as int == self.rank(),
            r < SERVICE_COUNT,
    {
        match self {
            ServiceId::Mosquitto => 0,
            ServiceId::MqttClient => 1,
            ServiceId::Http => 2,
            ServiceId::Gateway => 3,
            ServiceId::CloudGateway => 4,
        }
    }

    pub fn from_index(i: usize) -> (id: ServiceId)
        requires
            i < SERVICE_COUNT,
        ensures
            id.rank() == i as int,
            id == ServiceId::at_rank(i as int),
    {
        if i == 0 {
            ServiceId::Mosquitto
        } else if i == 1 {
            ServiceId::MqttClient
        } else if i == 2 {
            ServiceId::Http
        } else if i == 3 {
            ServiceId::Gateway
        } else {
            ServiceId::CloudGateway
        }
    }

    /// The variant's name, as `{:?}` prints it.
    pub fn name(&self) -> (r: &'static str)
        ensures
            r@ == self.name_view(),
    {
        match self {
            ServiceId::Mosquitto => "Mosquitto",
            ServiceId::MqttClient => "MqttClient",
            ServiceId::Http => "Http",
            ServiceId::Gateway => "Gateway",
            ServiceId::CloudGateway => "CloudGateway",
        }
    }

    /// `"<name><suffix>"`: the shape of every message the supervisor reports.
    pub fn message(&self, suffix: &str) -> (r: String)
        ensures
            r@ == self.name_view() + suffix@,
    {
        String::from_str(self.name()).concat(suffix)
    }
}

} // verus!
