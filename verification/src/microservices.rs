//! The services of the platform that this authority serves.

use vstd::prelude::*;

verus! {

/// A service of the platform.
#[derive(Debug, Clone, Copy, PartialEq, Eq, Structural)]
pub enum Microservices {
    Buergerbuero,
    Stadtbus,
    Kita,
    Forum,
    Tierheim,
    SmartAuth,
    Fitnessstudio,
    Finanzamt,
    Integration,
    LandingPage,
}

impl Microservices {
    /// The number under which the platform knows the service.
    pub open spec fn spec_id(self) -> u8 {
        match self {
            Microservices::Buergerbuero => 1,
            Microservices::Stadtbus => 2,
            Microservices::Kita => 3,
            Microservices::Forum => 4,
            Microservices::Tierheim => 5,
            Microservices::SmartAuth => 6,
            Microservices::Fitnessstudio => 7,
            Microservices::Finanzamt => 8,
            Microservices::Integration => 9,
            Microservices::LandingPage => 10,
        }
    }

    /// The name under which the service is shown.
    pub open spec fn spec_name(self) -> Seq<char> {
        match self {
            Microservices::Buergerbuero => "Bürgerbüro"@,
            Microservices::Stadtbus => "Stadtbus"@,
            Microservices::Kita => "Kita"@,
            Microservices::Forum => "Forum"@,
            Microservices::Tierheim => "Tierheim"@,
            Microservices::SmartAuth => "SmartAuth"@,
            Microservices::Fitnessstudio => "Fitnessstudio"@,
            Microservices::Finanzamt => "Finanzamt"@,
            Microservices::Integration => "Integration"@,
            Microservices::LandingPage => "LandingPage"@,
        }
    }

    /// The number of the service.
    pub fn id(&self) -> (id: u8)
        ensures
            id == self.spec_id(),
            1 <= id <= 10,
    {
        match self {
            Microservices::Buergerbuero => 1,
            Microservices::Stadtbus => 2,
            Microservices::Kita => 3,
            Microservices::Forum => 4,
            Microservices::Tierheim => 5,
            Microservices::SmartAuth => 6,
            Microservices::Fitnessstudio => 7,
            Microservices::Finanzamt => 8,
            Microservices::Integration => 9,
            Microservices::LandingPage => 10,
        }
    }

    /// The name of the service.
    pub fn to_string(&self) -> (name: String)
        ensures
            name@ == self.spec_name(),
    {
        match self {
            Microservices::Buergerbuero => "Bürgerbüro".to_owned(),
            Microservices::Stadtbus => "Stadtbus".to_owned(),
            Microservices::Kita => "Kita".to_owned(),
            Microservices::Forum => "Forum".to_owned(),
            Microservices::Tierheim => "Tierheim".to_owned(),
            Microservices::SmartAuth => "SmartAuth".to_owned(),
            Microservices::Fitnessstudio => "Fitnessstudio".to_owned(),
            Microservices::Finanzamt => "Finanzamt".to_owned(),
            Microservices::Integration => "Integration".to_owned(),
            Microservices::LandingPage => "LandingPage".to_owned(),
        }
    }
}

/// Distinct services have distinct numbers.
pub proof fn service_ids_are_distinct(a: Microservices, b: Microservices)
    ensures
        a.spec_id() == b.spec_id() ==> a == b,
{
}

} // verus!
