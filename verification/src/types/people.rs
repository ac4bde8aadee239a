//! Data types of the people API.

use vstd::prelude::*;

verus! {

#[derive(Debug, Clone)]
pub struct PersonProfile {
    pub resource_name: Option<String>,
    pub etag: Option<String>,
    pub names: Vec<PersonName>,
    pub email_addresses: Vec<PersonEmail>,
    pub phone_numbers: Vec<PersonPhone>,
    pub photos: Vec<PersonPhoto>,
    pub organizations: Vec<PersonOrganization>,
    pub relations: Vec<PersonRelation>,
    pub addresses: Vec<PersonAddress>,
}

#[derive(Debug, Clone)]
pub struct PersonName {
    pub display_name: Option<String>,
    pub family_name: Option<String>,
    pub given_name: Option<String>,
    pub middle_name: Option<String>,
}

#[derive(Debug, Clone)]
pub struct PersonEmail {
    pub value: Option<String>,
    pub email_type: Option<String>,
    pub form_type: Option<String>,
}

#[derive(Debug, Clone)]
pub struct PersonPhone {
    pub value: Option<String>,
    pub phone_type: Option<String>,
}

#[derive(Debug, Clone)]
pub struct PersonPhoto {
    pub url: Option<String>,
    pub default: bool,
}

#[derive(Debug, Clone)]
pub struct PersonOrganization {
    pub name: Option<String>,
    pub title: Option<String>,
    pub department: Option<String>,
}

#[derive(Debug, Clone)]
pub struct PersonRelation {
    pub person: Option<String>,
    pub relation_type: Option<String>,
}

#[derive(Debug, Clone)]
pub struct PersonAddress {
    pub formatted_value: Option<String>,
    pub address_type: Option<String>,
    pub street_address: Option<String>,
    pub city: Option<String>,
    pub region: Option<String>,
    pub postal_code: Option<String>,
    pub country: Option<String>,
    pub country_code: Option<String>,
}

} // verus!
