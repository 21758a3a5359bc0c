//! Citizens as the external registry describes them.

use vstd::prelude::*;
use vstd::string::*;
use crate::errors::CitizenInfoRetrievalError;
use crate::text::push_char;

verus! {

/// The postal address of a citizen. The registry may omit every part.
#[derive(Debug, Clone)]
pub struct CitizenAddress {
    pub street: Option<String>,
    pub housenumber: Option<String>,
    pub city_code: Option<u32>,
    pub city: Option<String>,
}

/// The profile of a citizen. Only the two names are always present; the
/// registry may omit everything else, the address as a whole too.
#[derive(Debug, Clone)]
pub struct CitizenInfo {
    pub firstname: String,
    pub lastname: String,
    pub gender: Option<String>,
    pub birthdate: Option<String>,
    pub place_of_birth: Option<String>,
    pub birthname: Option<String>,
    pub email: Option<String>,
    pub spouse_id: Option<u64>,
    pub child_ids: Option<Vec<u64>>,
    pub address: Option<CitizenAddress>,
}

/// The registry has answered a request with success exactly where the
/// status of its answer is one of the 2xx.
pub open spec fn answered(status: u16) -> Result<(), CitizenInfoRetrievalError> {
    if 200 <= status < 300 {
        Ok(())
    } else {
        Err(CitizenInfoRetrievalError::Request)
    }
}

/// Decides by the status of the registry's answer whether there is a
/// profile to read: any status outside the 2xx is a failed request.
pub fn check_status(status: u16) -> (checked: Result<(), CitizenInfoRetrievalError>)
    ensures
        checked == answered(status),
{
    if 200 <= status && status < 300 {
        Ok(())
    } else {
        Err(CitizenInfoRetrievalError::Request)
    }
}

/// Something the registry knows under a citizen id.
pub trait IsCitizen {
    /// The id under which the registry knows this citizen.
    spec fn citizen_id(&self) -> u64;

    fn get_citizen_id(&self) -> (id: u64)
        ensures
            id == self.citizen_id(),
    ;
}

/// A bare citizen id.
#[derive(Debug, Clone, Copy, PartialEq, Eq, Structural)]
pub struct Citizen {
    pub citizen_id: u64,
}

impl IsCitizen for Citizen {
    open spec fn citizen_id(&self) -> u64 {
        self.citizen_id
    }

    fn get_citizen_id(&self) -> (id: u64) {
        self.citizen_id
    }
}


/// The decimal digit of a number below ten.
pub open spec fn digit(d: nat) -> char {
    if d == 0 {
        '0'
    } else if d == 1 {
        '1'
    } else if d == 2 {
        '2'
    } else if d == 3 {
        '3'
    } else if d == 4 {
        '4'
    } else if d == 5 {
        '5'
    } else if d == 6 {
        '6'
    } else if d == 7 {
        '7'
    } else if d == 8 {
        '8'
    } else {
        '9'
    }
}

/// A number in decimal notation, without leading zeros.
pub open spec fn decimal(n: nat) -> Seq<char>
    decreases n,
{
    if n < 10 {
        seq![digit(n)]
    } else {
        decimal(n / 10).push(digit(n % 10))
    }
}

/// Where the registry serves the profile of the citizen `id`.
pub open spec fn profile_location(id: u64) -> Seq<char> {
    "http://www.smartcityproject.net:9710/api/citizen/"@ + decimal(id as nat)
}

fn digit_of(d: u64) -> (symbol: char)
    requires
        d < 10,
    ensures
        symbol == digit(d as nat),
{
    if d == 0 {
        '0'
    } else if d == 1 {
        '1'
    } else if d == 2 {
        '2'
    } else if d == 3 {
        '3'
    } else if d == 4 {
        '4'
    } else if d == 5 {
        '5'
    } else if d == 6 {
        '6'
    } else if d == 7 {
        '7'
    } else if d == 8 {
        '8'
    } else {
        '9'
    }
}

/// Appends `n` in decimal notation to `text`.
pub fn push_decimal(text: &mut String, n: u64)
    ensures
        final(text)@ == old(text)@ + decimal(n as nat),
    decreases n,
{
    if n >= 10 {
        push_decimal(text, n / 10);
    }
    push_char(text, digit_of(n % 10));
    proof {
        assert(final(text)@ =~= old(text)@ + decimal(n as nat));
    }
}

/// The address at which the registry serves the profile of the citizen
/// `id`.
pub fn profile_url(id: u64) -> (url: String)
    ensures
        url@ == profile_location(id),
{
    let mut url = "http://www.smartcityproject.net:9710/api/citizen/".to_owned();
    push_decimal(&mut url, id);
    url
}

} // verus!
