//! Data-transfer records exchanged with the backends, and the few rules they carry: when an
//! update asks for nothing, and when a mutation still needs a fresh id.
use crate::platform::{fresh_uuid, is_v4_uuid_text};
use crate::warehouse::ValueContainer;
use vstd::prelude::*;

verus! {

/// A text in one language.
#[derive(Clone, Debug, PartialEq, Eq)]
pub struct TranslationInput {
    pub lang: String,
    pub text: String,
}

#[derive(Clone, Copy, Debug, PartialEq, Eq, Structural)]
pub enum UIType {
    Combobox,
    Radiobutton,
    Checkbox,
    ColorPicker,
}

#[derive(Clone, Copy, Debug, PartialEq, Eq, Structural)]
pub enum AttributeType {
    Str,
    Float,
}

#[derive(Clone, Copy, Debug, PartialEq, Eq, Structural)]
pub enum ModerationStatus {
    Draft,
    Moderation,
    Decline,
    Blocked,
    Published,
}

#[derive(Clone, Debug, PartialEq, Eq)]
pub struct AttributeMetaFieldInput {
    pub values: Option<Vec<String>>,
    pub translated_values: Option<Vec<Vec<TranslationInput>>>,
    pub ui_element: UIType,
}

#[derive(Clone, Debug, PartialEq, Eq)]
pub struct UpdateAttributeInput {
    pub client_mutation_id: String,
    pub id: String,
    pub name: Option<Vec<TranslationInput>>,
    pub meta_field: Option<AttributeMetaFieldInput>,
}

#[derive(Clone, Debug, PartialEq, Eq)]
pub struct UpdateAttributeValueInput {
    pub client_mutation_id: String,
    pub raw_attribute_id: i32,
    pub raw_id: i32,
    pub code: Option<String>,
    pub translations: Option<Vec<TranslationInput>>,
}

#[derive(Clone, Debug, PartialEq, Eq)]
pub struct DeleteAttributeInput {
    pub client_mutation_id: String,
    pub id: String,
}

#[derive(Clone, Debug, PartialEq, Eq)]
pub struct CreateAttributeValueInput {
    pub client_mutation_id: String,
    pub raw_attribute_id: i32,
    pub code: String,
    pub translations: Option<Vec<TranslationInput>>,
}

#[derive(Clone, Debug, PartialEq, Eq)]
pub struct DeleteAttributeValueInput {
    pub client_mutation_id: String,
    pub raw_id: i32,
}

#[derive(Clone, Debug, PartialEq, Eq)]
pub struct CreateAttributeValueWithAttributeInput {
    pub code: String,
    pub translations: Option<Vec<TranslationInput>>,
}

#[derive(Clone, Debug, PartialEq, Eq)]
pub struct CreateAttributeInput {
    pub uuid: String,
    pub name: Vec<TranslationInput>,
    pub value_type: AttributeType,
    pub meta_field: Option<AttributeMetaFieldInput>,
    pub values: Option<Vec<CreateAttributeValueWithAttributeInput>>,
}

#[derive(Clone, Debug, PartialEq, Eq)]
pub struct ProdAttrValueInput {
    pub attr_id: i32,
    pub value: String,
    pub meta_field: Option<String>,
}

#[derive(Clone, Debug, PartialEq, Eq)]
pub struct ProdAttrValue {
    pub attr_id: i32,
    pub attr_value_id: Option<i32>,
    pub value: String,
    pub meta_field: Option<String>,
}

#[derive(Clone, Debug, PartialEq, Eq)]
pub struct EqualFilterInput {
    pub values: Vec<String>,
}

#[derive(Clone, Debug, PartialEq, Eq)]
pub struct EqualFilter {
    pub values: Vec<String>,
}

/// An update of a base product. The rating is carried, never read, so its representation
/// is the caller's.
#[derive(Clone, Debug, PartialEq)]
pub struct UpdateBaseProductInput<Rating> {
    pub client_mutation_id: String,
    pub id: String,
    pub name: Option<Vec<TranslationInput>>,
    pub short_description: Option<Vec<TranslationInput>>,
    pub long_description: Option<Vec<TranslationInput>>,
    pub seo_title: Option<Vec<TranslationInput>>,
    pub seo_description: Option<Vec<TranslationInput>>,
    pub currency_id: Option<i32>,
    pub category_id: Option<i32>,
    pub rating: Option<Rating>,
    pub slug: Option<String>,
    pub status: Option<ModerationStatus>,
}

#[derive(Clone, Debug, PartialEq, Eq)]
pub struct CreateBaseProductInput {
    pub client_mutation_id: String,
    pub name: Vec<TranslationInput>,
    pub store_id: i32,
    pub short_description: Vec<TranslationInput>,
    pub long_description: Option<Vec<TranslationInput>>,
    pub seo_title: Option<Vec<TranslationInput>>,
    pub seo_description: Option<Vec<TranslationInput>>,
    pub currency_id: i32,
    pub category_id: i32,
    pub slug: Option<String>,
}

#[derive(Clone, Debug, PartialEq, Eq)]
pub struct DeactivateBaseProductInput {
    pub client_mutation_id: String,
    pub id: String,
}

#[derive(Clone, Debug, PartialEq, Eq)]
pub struct UpdateCategoryInput {
    pub client_mutation_id: String,
    pub id: String,
    pub name: Option<Vec<TranslationInput>>,
    pub meta_field: Option<String>,
    pub parent_id: Option<i32>,
    pub level: Option<i32>,
}

#[derive(Clone, Debug, PartialEq, Eq)]
pub struct CreateCategoryInput {
    pub client_mutation_id: String,
    pub uuid: Option<String>,
    pub name: Vec<TranslationInput>,
    pub meta_field: Option<String>,
    pub parent_id: i32,
}

#[derive(Clone, Debug, PartialEq, Eq)]
pub struct AddAttributeToCategoryInput {
    pub client_mutation_id: String,
    pub cat_id: i32,
    pub attr_id: i32,
}

#[derive(Clone, Debug, PartialEq, Eq)]
pub struct DeleteAttributeFromCategory {
    pub client_mutation_id: String,
    pub cat_id: i32,
    pub attr_id: i32,
}

#[derive(Clone, Debug, PartialEq, Eq)]
pub struct DeleteCategoryInput {
    pub client_mutation_id: String,
    pub cat_id: i32,
}

#[derive(Clone, Debug, PartialEq, Eq)]
pub struct VerifyEmailResendOutput {
    pub success: bool,
}

#[derive(Clone, Debug, PartialEq, Eq)]
pub struct VerifyEmailApplyOutput {
    pub success: bool,
    pub token: String,
    pub email: String,
}

/// What applying an e-mail verification token returns: the verified user, carried and
/// never read, and the token.
#[derive(Clone, Debug, PartialEq, Eq)]
pub struct EmailVerifyApplyToken<User> {
    pub user: User,
    pub token: String,
}

#[derive(Clone, Copy, Debug, PartialEq, Eq, Hash, Structural)]
pub enum UserMicroserviceRole {
    Superuser,
    Moderator,
    User,
}

#[derive(Clone, Copy, Debug, PartialEq, Eq, Hash, Structural)]
pub enum StoresMicroserviceRole {
    Superuser,
    Moderator,
    PlatformAdmin,
    User,
}

#[derive(Clone, Debug, PartialEq, Eq, Hash)]
pub struct NewUsersRoleInput {
    pub client_mutation_id: String,
    pub user_id: i32,
    pub role: UserMicroserviceRole,
}

#[derive(Clone, Debug, PartialEq, Eq, Hash)]
pub struct NewStoresRoleInput {
    pub client_mutation_id: String,
    pub user_id: i32,
    pub role: StoresMicroserviceRole,
}

#[derive(Clone, Debug, PartialEq, Eq, Hash)]
pub struct UsersRoles {
    pub user_id: i32,
    pub roles: Vec<UserMicroserviceRole>,
}

#[derive(Clone, Debug, PartialEq, Eq, Hash)]
pub struct StoresRoles {
    pub user_id: i32,
    pub roles: Vec<StoresMicroserviceRole>,
}

#[derive(Clone, Copy, Debug, PartialEq, Eq, Structural)]
pub enum WarehouseKind {
    DistributionCenter,
    Store,
}

#[derive(Clone, Debug, PartialEq, Eq)]
pub struct AddressInput {
    pub country: Option<String>,
    pub administrative_area_level_1: Option<String>,
    pub administrative_area_level_2: Option<String>,
    pub locality: Option<String>,
    pub political: Option<String>,
    pub postal_code: Option<String>,
    pub route: Option<String>,
    pub street_number: Option<String>,
    pub value: Option<String>,
    pub place_id: Option<String>,
}

/// An update of a warehouse. The location is carried, never read, so its representation
/// is the caller's.
#[derive(Clone, Debug, PartialEq)]
pub struct UpdateWarehouseInput<Location> {
    pub client_mutation_id: String,
    pub id: String,
    pub name: Option<String>,
    pub location: Option<Location>,
    pub address_full: AddressInput,
    pub slug: Option<String>,
}

/// A new warehouse. The location is carried, never read.
#[derive(Clone, Debug, PartialEq)]
pub struct CreateWarehouseInput<Location> {
    pub client_mutation_id: String,
    pub name: Option<String>,
    pub slug: Option<String>,
    pub store_id: i32,
    pub location: Option<Location>,
    pub address_full: AddressInput,
}

/// The body of a warehouse update: each field that the input sets, wrapped.
#[derive(Clone, Debug)]
pub struct UpdateWarehouse<Location> {
    pub slug: Option<ValueContainer<String>>,
    pub name: Option<ValueContainer<String>>,
    pub location: Option<ValueContainer<Location>>,
    pub administrative_area_level_1: Option<ValueContainer<String>>,
    pub administrative_area_level_2: Option<ValueContainer<String>>,
    pub country: Option<ValueContainer<String>>,
    pub locality: Option<ValueContainer<String>>,
    pub political: Option<ValueContainer<String>>,
    pub postal_code: Option<ValueContainer<String>>,
    pub route: Option<ValueContainer<String>>,
    pub street_number: Option<ValueContainer<String>>,
    pub address: Option<ValueContainer<String>>,
    pub place_id: Option<ValueContainer<String>>,
}

pub open spec fn address_is_empty(a: AddressInput) -> bool {
    &&& a.country is None
    &&& a.administrative_area_level_1 is None
    &&& a.administrative_area_level_2 is None
    &&& a.locality is None
    &&& a.political is None
    &&& a.postal_code is None
    &&& a.route is None
    &&& a.street_number is None
    &&& a.value is None
    &&& a.place_id is None
}

/// A field of an update body: present exactly when the input sets it, holding its value.
pub open spec fn wrapped<T>(input: Option<T>, out: Option<ValueContainer<T>>) -> bool {
    match input {
        None => out is None,
        Some(v) => out == Some(ValueContainer { value: Some(v) }),
    }
}

fn wrap<T>(v: Option<T>) -> (r: Option<ValueContainer<T>>)
    ensures
        wrapped(v, r),
{
    match v {
        None => None,
        Some(x) => Some(ValueContainer { value: Some(x) }),
    }
}

impl UpdateAttributeInput {
    /// The update changes nothing.
    pub fn is_none(&self) -> (r: bool)
        ensures
            r == (self.name is None && self.meta_field is None),
    {
        self.name.is_none() && self.meta_field.is_none()
    }
}

impl UpdateAttributeValueInput {
    /// The update changes nothing.
    pub fn is_none(&self) -> (r: bool)
        ensures
            r == (self.code is None && self.translations is None),
    {
        self.code.is_none() && self.translations.is_none()
    }
}

impl<Rating> UpdateBaseProductInput<Rating> {
    /// The update changes nothing.
    pub fn is_none(&self) -> (r: bool)
        ensures
            r == (self.name is None && self.short_description is None
                && self.long_description is None && self.seo_title is None
                && self.seo_description is None && self.currency_id is None
                && self.category_id is None && self.rating is None && self.slug is None
                && self.status is None),
    {
        self.name.is_none() && self.short_description.is_none() && self.long_description.is_none()
            && self.seo_title.is_none() && self.seo_description.is_none()
            && self.currency_id.is_none() && self.category_id.is_none() && self.rating.is_none()
            && self.slug.is_none() && self.status.is_none()
    }
}

impl UpdateCategoryInput {
    /// The update changes nothing.
    pub fn is_none(&self) -> (r: bool)
        ensures
            r == (self.name is None && self.meta_field is None && self.parent_id is None
                && self.level is None),
    {
        self.name.is_none() && self.meta_field.is_none() && self.parent_id.is_none()
            && self.level.is_none()
    }
}

impl AddressInput {
    pub fn is_empty(&self) -> (r: bool)
        ensures
            r == address_is_empty(*self),
    {
        self.country.is_none() && self.administrative_area_level_1.is_none()
            && self.administrative_area_level_2.is_none() && self.locality.is_none()
            && self.political.is_none() && self.postal_code.is_none() && self.route.is_none()
            && self.street_number.is_none() && self.value.is_none() && self.place_id.is_none()
    }
}

impl<Location> UpdateWarehouseInput<Location> {
    /// The update changes nothing.
    pub fn is_none(&self) -> (r: bool)
        ensures
            r == (self.name is None && self.location is None && self.slug is None
                && address_is_empty(self.address_full)),
    {
        self.name.is_none() && self.location.is_none() && self.slug.is_none()
            && self.address_full.is_empty()
    }
}

impl<Location> UpdateWarehouse<Location> {
    /// The update body of an update input: every field it sets, and no other.
    pub fn from_input(value: UpdateWarehouseInput<Location>) -> (r: Self)
        ensures
            wrapped(value.slug, r.slug),
            wrapped(value.name, r.name),
            wrapped(value.location, r.location),
            wrapped(value.address_full.administrative_area_level_1, r.administrative_area_level_1),
            wrapped(value.address_full.administrative_area_level_2, r.administrative_area_level_2),
            wrapped(value.address_full.country, r.country),
            wrapped(value.address_full.locality, r.locality),
            wrapped(value.address_full.political, r.political),
            wrapped(value.address_full.postal_code, r.postal_code),
            wrapped(value.address_full.route, r.route),
            wrapped(value.address_full.street_number, r.street_number),
            wrapped(value.address_full.value, r.address),
            wrapped(value.address_full.place_id, r.place_id),
    {
        let a = value.address_full;
        UpdateWarehouse {
            slug: wrap(value.slug),
            name: wrap(value.name),
            location: wrap(value.location),
            administrative_area_level_1: wrap(a.administrative_area_level_1),
            administrative_area_level_2: wrap(a.administrative_area_level_2),
            country: wrap(a.country),
            locality: wrap(a.locality),
            political: wrap(a.political),
            postal_code: wrap(a.postal_code),
            route: wrap(a.route),
            street_number: wrap(a.street_number),
            address: wrap(a.value),
            place_id: wrap(a.place_id),
        }
    }
}

impl CreateAttributeInput {
    /// Keeps a mutation id the client gave, else draws a fresh one.
    pub fn fill_uuid(self) -> (r: Self)
        ensures
            self.uuid@.len() > 0 ==> r == self,
            self.uuid@.len() == 0 ==> is_v4_uuid_text(r.uuid@) && r.name == self.name
                && r.value_type == self.value_type && r.meta_field == self.meta_field
                && r.values == self.values,
    {
        if self.uuid.as_str().is_empty() {
            let uuid = fresh_uuid();
            CreateAttributeInput { uuid, ..self }
        } else {
            self
        }
    }
}

impl CreateCategoryInput {
    /// Keeps a mutation id the client gave, else draws a fresh one.
    pub fn fill_uuid(self) -> (r: Self)
        ensures
            self.uuid is Some ==> r == self,
            self.uuid is None ==> (r.uuid matches Some(u) && is_v4_uuid_text(u@))
                && r.client_mutation_id == self.client_mutation_id && r.name == self.name
                && r.meta_field == self.meta_field && r.parent_id == self.parent_id,
    {
        match self.uuid {
            Some(_) => self,
            None => {
                let uuid = fresh_uuid();
                CreateCategoryInput { uuid: Some(uuid), ..self }
            },
        }
    }
}

} // verus!
