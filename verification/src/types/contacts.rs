//! Data types of the contacts API.

use vstd::prelude::*;

verus! {

#[derive(Debug, Clone)]
pub struct Person {
    pub resource_name: Option<String>,
    pub etag: Option<String>,
    pub metadata: Option<PersonMetadata>,
    pub names: Vec<Name>,
    pub nicknames: Vec<Nickname>,
    pub email_addresses: Vec<EmailAddress>,
    pub phone_numbers: Vec<PhoneNumber>,
    pub addresses: Vec<Address>,
    pub organizations: Vec<Organization>,
    pub birthdays: Vec<Birthday>,
    pub urls: Vec<Url>,
    pub photos: Vec<Photo>,
    pub biographies: Vec<Biography>,
    pub relations: Vec<Relation>,
    pub events: Vec<PersonEvent>,
    pub memberships: Vec<Membership>,
    pub im_clients: Vec<ImClient>,
    pub user_defined: Vec<UserDefined>,
    pub occupations: Vec<Occupation>,
    pub genders: Vec<Gender>,
    pub locations: Vec<Location>,
    pub sip_addresses: Vec<SipAddress>,
    pub external_ids: Vec<ExternalId>,
    pub file_ases: Vec<FileAs>,
    pub misc_keywords: Vec<MiscKeyword>,
    pub client_data: Vec<ClientData>,
}

#[derive(Debug, Clone)]
pub struct PersonMetadata {
    pub sources: Vec<Source>,
    pub previous_resource_names: Vec<String>,
    pub linked_people_resource_names: Vec<String>,
    pub deleted: bool,
    pub object_type: Option<String>,
}

#[derive(Debug, Clone)]
pub struct Source {
    pub source_type: Option<String>,
    pub id: Option<String>,
    pub etag: Option<String>,
    pub update_time: Option<String>,
    pub profile_metadata: Option<ProfileMetadata>,
}

#[derive(Debug, Clone)]
pub struct ProfileMetadata {
    pub object_type: Option<String>,
    pub user_types: Vec<String>,
}

#[derive(Debug, Clone)]
pub struct FieldMetadata {
    pub primary: bool,
    pub verified: bool,
    pub source: Option<Source>,
    pub source_primary: bool,
}

#[derive(Debug, Clone)]
pub struct Name {
    pub metadata: Option<FieldMetadata>,
    pub display_name: Option<String>,
    pub display_name_last_first: Option<String>,
    pub unstructured_name: Option<String>,
    pub family_name: Option<String>,
    pub given_name: Option<String>,
    pub middle_name: Option<String>,
    pub honorific_prefix: Option<String>,
    pub honorific_suffix: Option<String>,
    pub phonetic_full_name: Option<String>,
    pub phonetic_family_name: Option<String>,
    pub phonetic_given_name: Option<String>,
    pub phonetic_middle_name: Option<String>,
    pub phonetic_honorific_prefix: Option<String>,
    pub phonetic_honorific_suffix: Option<String>,
}

#[derive(Debug, Clone)]
pub struct Nickname {
    pub metadata: Option<FieldMetadata>,
    pub value: Option<String>,
    pub nickname_type: Option<String>,
}

#[derive(Debug, Clone)]
pub struct EmailAddress {
    pub metadata: Option<FieldMetadata>,
    pub value: Option<String>,
    pub email_type: Option<String>,
    pub formatted_type: Option<String>,
    pub display_name: Option<String>,
}

#[derive(Debug, Clone)]
pub struct PhoneNumber {
    pub metadata: Option<FieldMetadata>,
    pub value: Option<String>,
    pub canonical_form: Option<String>,
    pub phone_type: Option<String>,
    pub formatted_type: Option<String>,
}

#[derive(Debug, Clone)]
pub struct Address {
    pub metadata: Option<FieldMetadata>,
    pub formatted_value: Option<String>,
    pub address_type: Option<String>,
    pub formatted_type: Option<String>,
    pub po_box: Option<String>,
    pub street_address: Option<String>,
    pub extended_address: Option<String>,
    pub city: Option<String>,
    pub region: Option<String>,
    pub postal_code: Option<String>,
    pub country: Option<String>,
    pub country_code: Option<String>,
}

#[derive(Debug, Clone)]
pub struct Organization {
    pub metadata: Option<FieldMetadata>,
    pub org_type: Option<String>,
    pub formatted_type: Option<String>,
    pub name: Option<String>,
    pub phonetic_name: Option<String>,
    pub department: Option<String>,
    pub title: Option<String>,
    pub job_description: Option<String>,
    pub symbol: Option<String>,
    pub domain: Option<String>,
    pub location: Option<String>,
    pub start_date: Option<DateValue>,
    pub end_date: Option<DateValue>,
    pub current: bool,
    pub cost_center: Option<String>,
    pub full_time_equivalent_millipercent: Option<i64>,
}

#[derive(Debug, Clone)]
pub struct Birthday {
    pub metadata: Option<FieldMetadata>,
    pub date: Option<DateValue>,
    pub text: Option<String>,
}

#[derive(Debug, Clone)]
pub struct DateValue {
    pub year: Option<i64>,
    pub month: Option<i64>,
    pub day: Option<i64>,
}

#[derive(Debug, Clone)]
pub struct Url {
    pub metadata: Option<FieldMetadata>,
    pub value: Option<String>,
    pub url_type: Option<String>,
    pub formatted_type: Option<String>,
}

#[derive(Debug, Clone)]
pub struct Photo {
    pub metadata: Option<FieldMetadata>,
    pub url: Option<String>,
    pub default: bool,
}

#[derive(Debug, Clone)]
pub struct Biography {
    pub metadata: Option<FieldMetadata>,
    pub value: Option<String>,
    pub content_type: Option<String>,
}

#[derive(Debug, Clone)]
pub struct Relation {
    pub metadata: Option<FieldMetadata>,
    pub person: Option<String>,
    pub relation_type: Option<String>,
    pub formatted_type: Option<String>,
}

#[derive(Debug, Clone)]
pub struct PersonEvent {
    pub metadata: Option<FieldMetadata>,
    pub date: Option<DateValue>,
    pub event_type: Option<String>,
    pub formatted_type: Option<String>,
}

#[derive(Debug, Clone)]
pub struct Membership {
    pub metadata: Option<FieldMetadata>,
    pub contact_group_membership: Option<ContactGroupMembership>,
    pub domain_membership: Option<DomainMembership>,
}

#[derive(Debug, Clone)]
pub struct ContactGroupMembership {
    pub contact_group_id: Option<String>,
    pub contact_group_resource_name: Option<String>,
}

#[derive(Debug, Clone)]
pub struct DomainMembership {
    pub in_viewer_domain: bool,
}

#[derive(Debug, Clone)]
pub struct ImClient {
    pub metadata: Option<FieldMetadata>,
    pub username: Option<String>,
    pub im_type: Option<String>,
    pub formatted_type: Option<String>,
    pub protocol: Option<String>,
    pub formatted_protocol: Option<String>,
}

#[derive(Debug, Clone)]
pub struct UserDefined {
    pub metadata: Option<FieldMetadata>,
    pub key: Option<String>,
    pub value: Option<String>,
}

#[derive(Debug, Clone)]
pub struct Occupation {
    pub metadata: Option<FieldMetadata>,
    pub value: Option<String>,
}

#[derive(Debug, Clone)]
pub struct Gender {
    pub metadata: Option<FieldMetadata>,
    pub value: Option<String>,
    pub formatted_value: Option<String>,
    pub address_me_as: Option<String>,
}

#[derive(Debug, Clone)]
pub struct Location {
    pub metadata: Option<FieldMetadata>,
    pub value: Option<String>,
    pub location_type: Option<String>,
    pub current: bool,
    pub building_id: Option<String>,
    pub floor: Option<String>,
    pub floor_section: Option<String>,
    pub desk_code: Option<String>,
}

#[derive(Debug, Clone)]
pub struct SipAddress {
    pub metadata: Option<FieldMetadata>,
    pub value: Option<String>,
    pub sip_type: Option<String>,
    pub formatted_type: Option<String>,
}

#[derive(Debug, Clone)]
pub struct ExternalId {
    pub metadata: Option<FieldMetadata>,
    pub value: Option<String>,
    pub id_type: Option<String>,
    pub formatted_type: Option<String>,
}

#[derive(Debug, Clone)]
pub struct FileAs {
    pub metadata: Option<FieldMetadata>,
    pub value: Option<String>,
}

#[derive(Debug, Clone)]
pub struct MiscKeyword {
    pub metadata: Option<FieldMetadata>,
    pub value: Option<String>,
    pub keyword_type: Option<String>,
    pub formatted_type: Option<String>,
}

#[derive(Debug, Clone)]
pub struct ClientData {
    pub metadata: Option<FieldMetadata>,
    pub key: Option<String>,
    pub value: Option<String>,
}

#[derive(Debug, Clone)]
pub struct ContactGroup {
    pub resource_name: Option<String>,
    pub etag: Option<String>,
    pub metadata: Option<ContactGroupMetadata>,
    pub group_type: Option<String>,
    pub name: Option<String>,
    pub formatted_name: Option<String>,
    pub member_resource_names: Vec<String>,
    pub member_count: Option<i64>,
    pub client_data: Vec<ClientData>,
}

#[derive(Debug, Clone)]
pub struct ContactGroupMetadata {
    pub update_time: Option<String>,
    pub deleted: bool,
}

} // verus!
