//! The schema model, and the decoder that builds it from a JSON document.

use crate::error::{outcome, DeserializationError};
use crate::json::{
    cannot_find, get_required_object, lemma_view_variants, members_view, Json, JsonModel,
    JsonNumber,
};
use crate::parse::json_parse;
use vstd::prelude::*;
use vstd::string::StringExecFns;

verus! {

/// The definitions of one schema document, in the order the document's
/// "definitions" object lists them.
#[derive(Debug, PartialEq, Eq)]
pub struct Definitions {
    definitions: Vec<Definition>,
}

/// A named boundary that groups entities.
#[derive(Debug, PartialEq, Eq)]
pub struct Service {
    pub name: String,
}

/// A named record type made of elements.
#[derive(Debug, PartialEq, Eq)]
pub struct Entity {
    pub name: String,
    pub elements: Vec<Element>,
}

/// A named, typed field of an entity.
#[derive(Debug, PartialEq, Eq)]
pub struct Element {
    pub name: String,
    pub key: bool,
    pub kind: ElementKind,
}

/// The primitive type of an element, told apart by the element's "type" tag.
#[derive(Debug, PartialEq, Eq)]
pub enum ElementKind {
    UUID(PrimitiveKind<String>),
    Boolean(PrimitiveKind<bool>),
    Integer(PrimitiveKind<i64>),
    String(PrimitiveKindString),
}

/// What a primitive type carries: an optional default value.
#[derive(Debug, PartialEq, Eq)]
pub struct PrimitiveKind<T> {
    pub default: Option<Default<T>>,
}

/// What a string type carries: an optional default value and an optional
/// length.
#[derive(Debug, PartialEq, Eq)]
pub struct PrimitiveKindString {
    pub default: Option<Default<String>>,
    pub length: Option<u64>,
}

/// A default value. A literal is the one form there is.
#[derive(Debug, PartialEq, Eq)]
pub enum Default<T> {
    Val(T),
}

/// One definition of a schema document.
#[derive(Debug, PartialEq, Eq)]
pub enum Definition {
    Service(Service),
    Entity(Entity),
}

/// The mathematical value of an [`ElementKind`]: the type, the literal of its
/// default where it has one, and for a string its length.
#[allow(inconsistent_fields)]
pub enum ElementKindModel {
    UUID { default: Option<Seq<char>> },
    Boolean { default: Option<bool> },
    Integer { default: Option<i64> },
    String { default: Option<Seq<char>>, length: Option<u64> },
}

/// The mathematical value of an [`Element`].
pub struct ElementModel {
    pub name: Seq<char>,
    pub key: bool,
    pub kind: ElementKindModel,
}

/// The mathematical value of an [`Entity`].
pub struct EntityModel {
    pub name: Seq<char>,
    pub elements: Seq<ElementModel>,
}

/// The mathematical value of a [`Definition`].
pub enum DefinitionModel {
    Service { name: Seq<char> },
    Entity(EntityModel),
}

/// The literal of a textual default.
pub open spec fn text_literal(default: Option<Default<String>>) -> Option<Seq<char>> {
    match default {
        Some(Default::Val(text)) => Some(text@),
        None => None,
    }
}

/// The literal of a default whose type is its own model.
pub open spec fn plain_literal<T>(default: Option<Default<T>>) -> Option<T> {
    match default {
        Some(Default::Val(value)) => Some(value),
        None => None,
    }
}

impl View for ElementKind {
    type V = ElementKindModel;

    open spec fn view(&self) -> ElementKindModel {
        match self {
            ElementKind::UUID(kind) => ElementKindModel::UUID {
                default: text_literal(kind.default),
            },
            ElementKind::Boolean(kind) => ElementKindModel::Boolean {
                default: plain_literal(kind.default),
            },
            ElementKind::Integer(kind) => ElementKindModel::Integer {
                default: plain_literal(kind.default),
            },
            ElementKind::String(kind) => ElementKindModel::String {
                default: text_literal(kind.default),
                length: kind.length,
            },
        }
    }
}

impl View for Element {
    type V = ElementModel;

    open spec fn view(&self) -> ElementModel {
        ElementModel { name: self.name@, key: self.key, kind: self.kind@ }
    }
}

/// The values of a list of elements, one for one.
pub open spec fn elements_view(elements: Seq<Element>) -> Seq<ElementModel> {
    Seq::new(elements.len(), |i: int| elements[i]@)
}

impl View for Entity {
    type V = EntityModel;

    open spec fn view(&self) -> EntityModel {
        EntityModel { name: self.name@, elements: elements_view(self.elements@) }
    }
}

impl View for Definition {
    type V = DefinitionModel;

    open spec fn view(&self) -> DefinitionModel {
        match self {
            Definition::Service(service) => DefinitionModel::Service { name: service.name@ },
            Definition::Entity(entity) => DefinitionModel::Entity(entity@),
        }
    }
}

/// The values of a list of definitions, one for one.
pub open spec fn definitions_view(definitions: Seq<Definition>) -> Seq<DefinitionModel> {
    Seq::new(definitions.len(), |i: int| definitions[i]@)
}

impl View for Definitions {
    type V = Seq<DefinitionModel>;

    closed spec fn view(&self) -> Seq<DefinitionModel> {
        definitions_view(self.definitions@)
    }
}

/// The description of the failure to decode an element's "type" field.
pub open spec fn type_failure() -> Seq<char> {
    "Cannot decode type"@
}

/// The description of the failure to decode an element's "default" field.
pub open spec fn default_failure() -> Seq<char> {
    "Cannot decode default"@
}

/// The description of the failure to decode an element's "length" field.
pub open spec fn length_failure() -> Seq<char> {
    "Cannot decode length"@
}

/// The three states of an element's "default" field.
pub enum DefaultField {
    /// The element has no such field.
    Absent,
    /// The field is an object whose one member, "val", holds this literal.
    Literal(JsonModel),
    /// The field is there and has another shape.
    Malformed,
}

/// Reads the "default" field of an element.
pub open spec fn default_field(element: JsonModel) -> DefaultField {
    match element.field("default"@) {
        None => DefaultField::Absent,
        Some(JsonModel::Object(members)) => if members.len() == 1 && members[0].0 == "val"@ {
            DefaultField::Literal(members[0].1)
        } else {
            DefaultField::Malformed
        },
        Some(_) => DefaultField::Malformed,
    }
}

/// The default of an element whose literals are texts.
pub open spec fn text_default(element: JsonModel) -> Result<Option<Seq<char>>, Seq<char>> {
    match default_field(element) {
        DefaultField::Absent => Ok(None),
        DefaultField::Literal(JsonModel::String(text)) => Ok(Some(text)),
        _ => Err(default_failure()),
    }
}

/// The default of an element whose literals are booleans.
pub open spec fn boolean_default(element: JsonModel) -> Result<Option<bool>, Seq<char>> {
    match default_field(element) {
        DefaultField::Absent => Ok(None),
        DefaultField::Literal(JsonModel::Bool(b)) => Ok(Some(b)),
        _ => Err(default_failure()),
    }
}

/// The default of an element whose literals are 64-bit integers.
pub open spec fn integer_default(element: JsonModel) -> Result<Option<i64>, Seq<char>> {
    match default_field(element) {
        DefaultField::Absent => Ok(None),
        DefaultField::Literal(JsonModel::Number(n)) => match n.signed() {
            Some(i) => Ok(Some(i)),
            None => Err(default_failure()),
        },
        _ => Err(default_failure()),
    }
}

/// The "length" field of an element: an unsigned integer where it is there.
pub open spec fn length_field(element: JsonModel) -> Result<Option<u64>, Seq<char>> {
    match element.field("length"@) {
        None => Ok(None),
        Some(JsonModel::Number(n)) => match n.unsigned() {
            Some(u) => Ok(Some(u)),
            None => Err(length_failure()),
        },
        Some(_) => Err(length_failure()),
    }
}

/// The kind of a string element: its default, then its length.
pub open spec fn string_kind(element: JsonModel) -> Result<ElementKindModel, Seq<char>> {
    match text_default(element) {
        Err(description) => Err(description),
        Ok(default) => match length_field(element) {
            Err(description) => Err(description),
            Ok(length) => Ok(ElementKindModel::String { default, length }),
        },
    }
}

/// The kind that the tag `tag` selects for an element, with its payload.
pub open spec fn tagged_kind(tag: Seq<char>, element: JsonModel) -> Result<
    ElementKindModel,
    Seq<char>,
> {
    if tag == "cds.UUID"@ {
        match text_default(element) {
            Ok(default) => Ok(ElementKindModel::UUID { default }),
            Err(description) => Err(description),
        }
    } else if tag == "cds.Boolean"@ {
        match boolean_default(element) {
            Ok(default) => Ok(ElementKindModel::Boolean { default }),
            Err(description) => Err(description),
        }
    } else if tag == "cds.Integer"@ {
        match integer_default(element) {
            Ok(default) => Ok(ElementKindModel::Integer { default }),
            Err(description) => Err(description),
        }
    } else if tag == "cds.String"@ {
        string_kind(element)
    } else {
        Err(type_failure())
    }
}

/// Whether `tag` is one of the four type tags.
pub open spec fn known_tag(tag: Seq<char>) -> bool {
    tag == "cds.UUID"@ || tag == "cds.Boolean"@ || tag == "cds.Integer"@ || tag == "cds.String"@
}

/// The kind of an element: its "type" field must be a text and one of the
/// four tags, and the payload must fit the tag.
pub open spec fn decode_kind(element: JsonModel) -> Result<ElementKindModel, Seq<char>> {
    match element.field("type"@) {
        Some(JsonModel::String(tag)) => tagged_kind(tag, element),
        _ => Err(type_failure()),
    }
}

/// Reads the "default" field of an element and hands out its literal.
fn default_literal<'a>(element: &'a Json) -> (r: Result<Option<&'a Json>, DeserializationError>)
    ensures
        match default_field(element@) {
            DefaultField::Absent => r is Ok && r->Ok_0 is None,
            DefaultField::Literal(literal) => r is Ok && r->Ok_0 is Some && r->Ok_0->Some_0@
                == literal,
            DefaultField::Malformed => r is Err && r->Err_0@ == default_failure(),
        },
{
    match element.get("default") {
        None => Ok(None),
        Some(field) => {
            proof {
                lemma_view_variants(*field);
            }
            match field {
                Json::Object(entries) => {
                    if entries.len() == 1 && entries[0].key == String::from_str("val") {
                        Ok(Some(&entries[0].value))
                    } else {
                        Err(DeserializationError::new("Cannot decode default"))
                    }
                },
                _ => Err(DeserializationError::new("Cannot decode default")),
            }
        },
    }
}

/// Decodes the default of an element whose literals are texts.
fn decode_text_default(element: &Json) -> (r: Result<
    Option<Default<String>>,
    DeserializationError,
>)
    ensures
        match text_default(element@) {
            Ok(default) => r is Ok && text_literal(r->Ok_0) == default,
            Err(description) => r is Err && r->Err_0@ == description,
        },
{
    match default_literal(element)? {
        None => Ok(None),
        Some(literal) => {
            proof {
                lemma_view_variants(*literal);
            }
            match literal {
                Json::String(text) => Ok(Some(Default::Val(text.clone()))),
                _ => Err(DeserializationError::new("Cannot decode default")),
            }
        },
    }
}

/// Decodes the default of an element whose literals are booleans.
fn decode_boolean_default(element: &Json) -> (r: Result<
    Option<Default<bool>>,
    DeserializationError,
>)
    ensures
        match boolean_default(element@) {
            Ok(default) => r is Ok && plain_literal(r->Ok_0) == default,
            Err(description) => r is Err && r->Err_0@ == description,
        },
{
    match default_literal(element)? {
        None => Ok(None),
        Some(literal) => {
            proof {
                lemma_view_variants(*literal);
            }
            match literal {
                Json::Bool(b) => Ok(Some(Default::Val(*b))),
                _ => Err(DeserializationError::new("Cannot decode default")),
            }
        },
    }
}

/// Decodes the default of an element whose literals are 64-bit integers.
fn decode_integer_default(element: &Json) -> (r: Result<
    Option<Default<i64>>,
    DeserializationError,
>)
    ensures
        match integer_default(element@) {
            Ok(default) => r is Ok && plain_literal(r->Ok_0) == default,
            Err(description) => r is Err && r->Err_0@ == description,
        },
{
    match default_literal(element)? {
        None => Ok(None),
        Some(literal) => {
            proof {
                lemma_view_variants(*literal);
            }
            match literal {
                Json::Number(n) => match n.as_i64() {
                    Some(i) => Ok(Some(Default::Val(i))),
                    None => Err(DeserializationError::new("Cannot decode default")),
                },
                _ => Err(DeserializationError::new("Cannot decode default")),
            }
        },
    }
}

/// Decodes the "length" field of an element.
fn decode_length(element: &Json) -> (r: Result<Option<u64>, DeserializationError>)
    ensures
        match length_field(element@) {
            Ok(length) => r is Ok && r->Ok_0 == length,
            Err(description) => r is Err && r->Err_0@ == description,
        },
{
    match element.get("length") {
        None => Ok(None),
        Some(field) => {
            proof {
                lemma_view_variants(*field);
            }
            match field {
                Json::Number(n) => match n.as_u64() {
                    Some(u) => Ok(Some(u)),
                    None => Err(DeserializationError::new("Cannot decode length")),
                },
                _ => Err(DeserializationError::new("Cannot decode length")),
            }
        },
    }
}

impl ElementKind {
    /// Decodes the kind of one element from its description as JSON text.
    pub fn from_str(text: &str) -> (r: Result<ElementKind, DeserializationError>)
        ensures
            outcome(r) == match json_parse(text@) {
                Ok(element) => decode_kind(element),
                Err(message) => Err(message),
            },
    {
        let element = Json::parse(text)?;
        ElementKind::from_json(&element)
    }

    /// Decodes the kind of one element from its JSON description: the "type"
    /// tag picks the kind, "default" and, for a string, "length" fill it.
    /// A tag that is none of the four, or a payload of another shape, fails.
    pub fn from_json(element: &Json) -> (r: Result<ElementKind, DeserializationError>)
        ensures
            outcome(r) == decode_kind(element@),
    {
        let tag = match element.get("type") {
            Some(field) => {
                proof {
                    lemma_view_variants(*field);
                }
                match field {
                    Json::String(tag) => tag,
                    _ => {
                        return Err(DeserializationError::new("Cannot decode type"));
                    },
                }
            },
            None => {
                return Err(DeserializationError::new("Cannot decode type"));
            },
        };
        if *tag == String::from_str("cds.UUID") {
            let default = decode_text_default(element)?;
            Ok(ElementKind::UUID(PrimitiveKind { default }))
        } else if *tag == String::from_str("cds.Boolean") {
            let default = decode_boolean_default(element)?;
            Ok(ElementKind::Boolean(PrimitiveKind { default }))
        } else if *tag == String::from_str("cds.Integer") {
            let default = decode_integer_default(element)?;
            Ok(ElementKind::Integer(PrimitiveKind { default }))
        } else if *tag == String::from_str("cds.String") {
            let default = decode_text_default(element)?;
            let length = decode_length(element)?;
            Ok(ElementKind::String(PrimitiveKindString { default, length }))
        } else {
            Err(DeserializationError::new("Cannot decode type"))
        }
    }
}

/// Whether an element is marked as a key: its "key" field is the boolean
/// `true`. Any other value, or no such field, leaves it unmarked.
pub open spec fn is_key(element: JsonModel) -> bool {
    element.field("key"@) == Some(JsonModel::Bool(true))
}

/// The element called `name` that the description `element` stands for.
pub open spec fn decode_element(name: Seq<char>, element: JsonModel) -> Result<
    ElementModel,
    Seq<char>,
> {
    match decode_kind(element) {
        Ok(kind) => Ok(ElementModel { name, key: is_key(element), kind }),
        Err(description) => Err(description),
    }
}

/// The elements that the members of an "elements" object stand for, in
/// their order; the first member that fails to decode fails them all.
pub open spec fn decode_elements(members: Seq<(Seq<char>, JsonModel)>) -> Result<
    Seq<ElementModel>,
    Seq<char>,
>
    decreases members.len(),
{
    if members.len() == 0 {
        Ok(Seq::empty())
    } else {
        match decode_elements(members.drop_last()) {
            Err(description) => Err(description),
            Ok(elements) => match decode_element(members.last().0, members.last().1) {
                Err(description) => Err(description),
                Ok(element) => Ok(elements.push(element)),
            },
        }
    }
}

/// A failure among the first members is the failure of the whole list.
pub proof fn lemma_elements_failure(members: Seq<(Seq<char>, JsonModel)>, n: int)
    requires
        0 <= n <= members.len(),
        decode_elements(members.take(n)) is Err,
    ensures
        decode_elements(members) == decode_elements(members.take(n)),
    decreases members.len(),
{
    if n == members.len() {
        assert(members.take(n) =~= members);
    } else {
        assert(members.drop_last().take(n) =~= members.take(n));
        lemma_elements_failure(members.drop_last(), n);
    }
}

impl Element {
    /// Decodes the element called `name` from its JSON description.
    pub fn from_json(name: &str, element: &Json) -> (r: Result<Element, DeserializationError>)
        ensures
            outcome(r) == decode_element(name@, element@),
    {
        let kind = ElementKind::from_json(element)?;
        let key = match element.get("key") {
            Some(field) => field.is_true(),
            None => false,
        };
        Ok(Element { name: String::from_str(name), key, kind })
    }
}

/// The entity called `name` that `value` stands for: its "elements" field
/// must be an object, and each member of it must decode.
pub open spec fn decode_entity(name: Seq<char>, value: JsonModel) -> Result<
    EntityModel,
    Seq<char>,
> {
    match value.object_field("elements"@) {
        None => Err(cannot_find("elements"@)),
        Some(members) => match decode_elements(members) {
            Ok(elements) => Ok(EntityModel { name, elements }),
            Err(description) => Err(description),
        },
    }
}

impl Entity {
    /// Decodes the entity called `name` from its JSON description. The
    /// elements come in the order of the members of "elements".
    pub fn from_json(name: &str, value: &Json) -> (r: Result<Entity, DeserializationError>)
        ensures
            outcome(r) == decode_entity(name@, value@),
    {
        let entries = get_required_object(value, "elements")?;
        let ghost members = members_view(entries@);
        let mut elements: Vec<Element> = Vec::new();
        let mut i: usize = 0;
        proof {
            assert(members.take(0) =~= Seq::empty());
            assert(elements_view(elements@) =~= Seq::empty());
        }
        while i < entries.len()
            invariant
                i <= entries.len(),
                members == members_view(entries@),
                value@.object_field("elements"@) == Some(members),
                decode_elements(members.take(i as int)) == Ok::<Seq<ElementModel>, Seq<char>>(
                    elements_view(elements@),
                ),
            decreases entries.len() - i,
        {
            proof {
                assert(members.take(i as int + 1).drop_last() =~= members.take(i as int));
                assert(members.take(i as int + 1).last() == members[i as int]);
            }
            match Element::from_json(entries[i].key.as_str(), &entries[i].value) {
                Ok(element) => {
                    proof {
                        assert(elements_view(elements@.push(element)) =~= elements_view(
                            elements@,
                        ).push(element@));
                    }
                    elements.push(element);
                },
                Err(error) => {
                    proof {
                        lemma_elements_failure(members, i as int + 1);
                    }
                    return Err(error);
                },
            }
            i += 1;
        }
        proof {
            assert(members.take(i as int) =~= members);
        }
        Ok(Entity { name: String::from_str(name), elements })
    }
}

/// What one member of the "definitions" object stands for: a service where
/// its "kind" is "service", an entity where it is "entity", and nothing, which
/// is no failure, where it is anything else or missing.
pub open spec fn decode_definition(name: Seq<char>, value: JsonModel) -> Result<
    Option<DefinitionModel>,
    Seq<char>,
> {
    match value.field("kind"@) {
        Some(JsonModel::String(kind)) => if kind == "service"@ {
            Ok(Some(DefinitionModel::Service { name }))
        } else if kind == "entity"@ {
            match decode_entity(name, value) {
                Ok(entity) => Ok(Some(DefinitionModel::Entity(entity))),
                Err(description) => Err(description),
            }
        } else {
            Ok(None)
        },
        _ => Ok(None),
    }
}

/// The definitions that the members of a "definitions" object stand for, in
/// their order; the first member that fails to decode fails them all.
pub open spec fn decode_definitions(members: Seq<(Seq<char>, JsonModel)>) -> Result<
    Seq<DefinitionModel>,
    Seq<char>,
>
    decreases members.len(),
{
    if members.len() == 0 {
        Ok(Seq::empty())
    } else {
        match decode_definitions(members.drop_last()) {
            Err(description) => Err(description),
            Ok(definitions) => match decode_definition(members.last().0, members.last().1) {
                Err(description) => Err(description),
                Ok(Some(definition)) => Ok(definitions.push(definition)),
                Ok(None) => Ok(definitions),
            },
        }
    }
}

/// The definitions of a document: its "definitions" field must be an object.
pub open spec fn decode_document(document: JsonModel) -> Result<Seq<DefinitionModel>, Seq<char>> {
    match document.object_field("definitions"@) {
        None => Err(cannot_find("definitions"@)),
        Some(members) => decode_definitions(members),
    }
}

/// The definitions of a parsed text: a text that is no JSON fails with the
/// parser's message.
pub open spec fn decode_parsed(parsed: Result<JsonModel, Seq<char>>) -> Result<
    Seq<DefinitionModel>,
    Seq<char>,
> {
    match parsed {
        Ok(document) => decode_document(document),
        Err(message) => Err(message),
    }
}

/// A failure among the first members is the failure of the whole list.
pub proof fn lemma_definitions_failure(members: Seq<(Seq<char>, JsonModel)>, n: int)
    requires
        0 <= n <= members.len(),
        decode_definitions(members.take(n)) is Err,
    ensures
        decode_definitions(members) == decode_definitions(members.take(n)),
    decreases members.len(),
{
    if n == members.len() {
        assert(members.take(n) =~= members);
    } else {
        assert(members.drop_last().take(n) =~= members.take(n));
        lemma_definitions_failure(members.drop_last(), n);
    }
}

impl Definition {
    /// Decodes the definition called `name` from its JSON description, or
    /// passes it over where its "kind" is neither "service" nor "entity".
    pub fn from_json(name: &str, value: &Json) -> (r: Result<
        Option<Definition>,
        DeserializationError,
    >)
        ensures
            match decode_definition(name@, value@) {
                Ok(Some(definition)) => r is Ok && r->Ok_0 is Some && r->Ok_0->Some_0@
                    == definition,
                Ok(None) => r is Ok && r->Ok_0 is None,
                Err(description) => r is Err && r->Err_0@ == description,
            },
    {
        let kind = match value.get("kind") {
            Some(field) => match field.as_str() {
                Some(kind) => String::from_str(kind),
                None => {
                    return Ok(None);
                },
            },
            None => {
                return Ok(None);
            },
        };
        if kind == String::from_str("service") {
            Ok(Some(Definition::Service(Service { name: String::from_str(name) })))
        } else if kind == String::from_str("entity") {
            let entity = Entity::from_json(name, value)?;
            Ok(Some(Definition::Entity(entity)))
        } else {
            Ok(None)
        }
    }
}

impl Definitions {
    /// The definitions of a document, given in their order.
    pub fn new(definitions: Vec<Definition>) -> (r: Definitions)
        ensures
            r@ == definitions_view(definitions@),
    {
        Definitions { definitions }
    }

    /// The definitions, in their order.
    pub fn definitions(&self) -> (r: &Vec<Definition>)
        ensures
            definitions_view(r@) == self@,
    {
        &self.definitions
    }

    /// Decodes the definitions of a document. The document's "definitions"
    /// field must be an object; each of its members gives a service, an
    /// entity or nothing, in the members' order, and the first failure is the
    /// failure of the whole.
    pub fn from_json(document: &Json) -> (r: Result<Definitions, DeserializationError>)
        ensures
            outcome(r) == decode_document(document@),
            r is Ok ==> r->Ok_0@.len() == recognized_count(
                document@.object_field("definitions"@)->Some_0,
            ),
    {
        proof {
            if decode_document(document@) is Ok {
                lemma_document_count(document@);
            }
        }
        let entries = get_required_object(document, "definitions")?;
        let ghost members = members_view(entries@);
        let mut definitions: Vec<Definition> = Vec::new();
        let mut i: usize = 0;
        proof {
            assert(members.take(0) =~= Seq::empty());
            assert(definitions_view(definitions@) =~= Seq::empty());
        }
        while i < entries.len()
            invariant
                i <= entries.len(),
                members == members_view(entries@),
                document@.object_field("definitions"@) == Some(members),
                decode_definitions(members.take(i as int)) == Ok::<
                    Seq<DefinitionModel>,
                    Seq<char>,
                >(definitions_view(definitions@)),
            decreases entries.len() - i,
        {
            proof {
                assert(members.take(i as int + 1).drop_last() =~= members.take(i as int));
                assert(members.take(i as int + 1).last() == members[i as int]);
            }
            match Definition::from_json(entries[i].key.as_str(), &entries[i].value) {
                Ok(Some(definition)) => {
                    proof {
                        assert(definitions_view(definitions@.push(definition))
                            =~= definitions_view(definitions@).push(definition@));
                    }
                    definitions.push(definition);
                },
                Ok(None) => {},
                Err(error) => {
                    proof {
                        lemma_definitions_failure(members, i as int + 1);
                    }
                    return Err(error);
                },
            }
            i += 1;
        }
        proof {
            assert(members.take(i as int) =~= members);
        }
        Ok(Definitions { definitions })
    }

    /// Decodes the definitions of a schema document given as JSON text.
    pub fn from_str(csn: &str) -> (r: Result<Definitions, DeserializationError>)
        ensures
            outcome(r) == decode_parsed(json_parse(csn@)),
            r is Ok ==> r->Ok_0@.len() == recognized_count(
                json_parse(csn@)->Ok_0.object_field("definitions"@)->Some_0,
            ),
    {
        let document = Json::parse(csn)?;
        Definitions::from_json(&document)
    }
}

/// Whether a member of the "definitions" object is a service or an entity
/// by its "kind".
pub open spec fn is_recognized(value: JsonModel) -> bool {
    value.field("kind"@) == Some(JsonModel::String("service"@)) || value.field("kind"@) == Some(
        JsonModel::String("entity"@),
    )
}

/// How many of the members are services or entities by their "kind".
pub open spec fn recognized_count(members: Seq<(Seq<char>, JsonModel)>) -> nat
    decreases members.len(),
{
    if members.len() == 0 {
        0
    } else {
        recognized_count(members.drop_last()) + if is_recognized(members.last().1) {
            1nat
        } else {
            0nat
        }
    }
}

/// Where the members of a "definitions" object decode, there are as many
/// definitions as members whose "kind" is "service" or "entity": a member of
/// another kind, or of none, adds nothing.
pub proof fn lemma_definition_count(members: Seq<(Seq<char>, JsonModel)>)
    requires
        decode_definitions(members) is Ok,
    ensures
        decode_definitions(members)->Ok_0.len() == recognized_count(members),
    decreases members.len(),
{
    if members.len() > 0 {
        lemma_definition_count(members.drop_last());
    }
}

/// Where a document decodes, it gives as many definitions as its
/// "definitions" object has members whose "kind" is "service" or "entity".
pub proof fn lemma_document_count(document: JsonModel)
    requires
        decode_document(document) is Ok,
    ensures
        document.object_field("definitions"@) is Some,
        decode_document(document)->Ok_0.len() == recognized_count(
            document.object_field("definitions"@)->Some_0,
        ),
{
    lemma_definition_count(document.object_field("definitions"@)->Some_0);
}

/// An element decodes as a key exactly where its "key" field is the boolean
/// `true`: without the field, or with any other value in it, it is no key.
pub proof fn lemma_key_only_for_true(name: Seq<char>, element: JsonModel)
    requires
        decode_element(name, element) is Ok,
    ensures
        decode_element(name, element)->Ok_0.key <==> element.field("key"@) == Some(
            JsonModel::Bool(true),
        ),
        element.field("key"@) is None ==> !decode_element(name, element)->Ok_0.key,
{
}

/// The four type tags are four different texts.
pub proof fn lemma_tags_differ()
    ensures
        "cds.UUID"@ != "cds.Boolean"@,
        "cds.UUID"@ != "cds.Integer"@,
        "cds.UUID"@ != "cds.String"@,
        "cds.Boolean"@ != "cds.Integer"@,
        "cds.Boolean"@ != "cds.String"@,
        "cds.Integer"@ != "cds.String"@,
{
    reveal_strlit("cds.UUID");
    reveal_strlit("cds.Boolean");
    reveal_strlit("cds.Integer");
    reveal_strlit("cds.String");
    assert("cds.UUID"@.len() == 8);
    assert("cds.Boolean"@.len() == 11);
    assert("cds.Integer"@.len() == 11);
    assert("cds.String"@.len() == 10);
    assert("cds.Boolean"@[4] != "cds.Integer"@[4]);
}

/// An element decodes as the kind that its tag names, and as no other.
pub proof fn lemma_kind_follows_tag(element: JsonModel)
    requires
        decode_kind(element) is Ok,
    ensures
        element.field("type"@) is Some,
        element.field("type"@)->Some_0 is String,
        ({
            let tag = element.field("type"@)->Some_0->String_0;
            let kind = decode_kind(element)->Ok_0;
            &&& known_tag(tag)
            &&& kind is UUID <==> tag == "cds.UUID"@
            &&& kind is Boolean <==> tag == "cds.Boolean"@
            &&& kind is Integer <==> tag == "cds.Integer"@
            &&& kind is String <==> tag == "cds.String"@
        }),
{
    lemma_tags_differ();
}

/// A string element without a "length" field has no length; with a number
/// in that field, it has that number as its length.
pub proof fn lemma_string_length(element: JsonModel)
    requires
        decode_kind(element) is Ok,
        element.field("type"@) == Some(JsonModel::String("cds.String"@)),
    ensures
        decode_kind(element)->Ok_0 is String,
        element.field("length"@) is None <==> decode_kind(element)->Ok_0->length is None,
        element.field("length"@) matches Some(JsonModel::Number(n)) ==> decode_kind(
            element,
        )->Ok_0->length == n.unsigned(),
{
    lemma_tags_differ();
}

impl ElementKindModel {
    /// Whether the kind carries a default.
    pub open spec fn has_default(self) -> bool {
        match self {
            ElementKindModel::UUID { default } => default is Some,
            ElementKindModel::Boolean { default } => default is Some,
            ElementKindModel::Integer { default } => default is Some,
            ElementKindModel::String { default, length } => default is Some,
        }
    }

    /// Whether the kind carries a default, and `literal` is that default as
    /// a JSON value of the type that goes with the kind.
    pub open spec fn default_is(self, literal: JsonModel) -> bool {
        match self {
            ElementKindModel::UUID { default } => default is Some && literal == JsonModel::String(
                default->Some_0,
            ),
            ElementKindModel::Boolean { default } => default is Some && literal == JsonModel::Bool(
                default->Some_0,
            ),
            ElementKindModel::Integer { default } => default is Some && literal is Number
                && literal->Number_0.signed() == default,
            ElementKindModel::String { default, length } => default is Some && literal
                == JsonModel::String(default->Some_0),
        }
    }
}

/// An element without a "default" field decodes without a default.
pub proof fn lemma_absent_default(element: JsonModel)
    requires
        decode_kind(element) is Ok,
        element.field("default"@) is None,
    ensures
        !decode_kind(element)->Ok_0.has_default(),
{
}

/// An element whose "default" field is an object with the one member "val"
/// decodes with the literal of that member as its default, typed as the
/// element's kind asks: a text, a boolean or a 64-bit integer.
pub proof fn lemma_literal_default(element: JsonModel, literal: JsonModel)
    requires
        decode_kind(element) is Ok,
        element.field("default"@) == Some(JsonModel::Object(seq![("val"@, literal)])),
    ensures
        decode_kind(element)->Ok_0.default_is(literal),
{
}

/// An element whose "type" field is missing, is no text, or is a text other
/// than the four tags does not decode: it fails with the description of a
/// type failure, whatever else it holds.
pub proof fn lemma_unknown_tag_fails(name: Seq<char>, element: JsonModel)
    requires
        !(element.field("type"@) matches Some(JsonModel::String(tag)) && known_tag(tag)),
    ensures
        decode_kind(element) == Err::<ElementKindModel, Seq<char>>(type_failure()),
        decode_element(name, element) == Err::<ElementModel, Seq<char>>(type_failure()),
{
}

/// One element that fails to decode fails the whole list: nothing of the
/// other elements is returned.
pub proof fn lemma_bad_element_fails(members: Seq<(Seq<char>, JsonModel)>, i: int)
    requires
        0 <= i < members.len(),
        decode_element(members[i].0, members[i].1) is Err,
    ensures
        decode_elements(members) is Err,
    decreases members.len(),
{
    if i < members.len() - 1 {
        lemma_bad_element_fails(members.drop_last(), i);
    }
}

/// One member of "definitions" that fails to decode fails the whole
/// document: nothing of the other definitions is returned.
pub proof fn lemma_bad_definition_fails(members: Seq<(Seq<char>, JsonModel)>, i: int)
    requires
        0 <= i < members.len(),
        decode_definition(members[i].0, members[i].1) is Err,
    ensures
        decode_definitions(members) is Err,
    decreases members.len(),
{
    if i < members.len() - 1 {
        lemma_bad_definition_fails(members.drop_last(), i);
    }
}

/// A document without a "definitions" object fails with the description
/// "Cannot find definitions", and an entity without an "elements" object with
/// "Cannot find elements".
pub proof fn lemma_missing_objects(document: JsonModel, name: Seq<char>, value: JsonModel)
    ensures
        document.object_field("definitions"@) is None ==> decode_document(document) == Err::<
            Seq<DefinitionModel>,
            Seq<char>,
        >("Cannot find definitions"@),
        value.object_field("elements"@) is None ==> decode_entity(name, value) == Err::<
            EntityModel,
            Seq<char>,
        >("Cannot find elements"@),
{
    reveal_strlit("Cannot find ");
    reveal_strlit("definitions");
    reveal_strlit("elements");
    reveal_strlit("Cannot find definitions");
    reveal_strlit("Cannot find elements");
    assert("Cannot find "@ + "definitions"@ =~= "Cannot find definitions"@);
    assert("Cannot find "@ + "elements"@ =~= "Cannot find elements"@);
}

} // verus!
