//! The replies of the catalog service: for each request, the status and the
//! JSON body that answer it, and for a change the collection to store.
//!
//! The service reads the stored document, hands what it read to one of the
//! handlers here together with the request, and sends the reply it gets back.
//! For a change the handler hands back the new collection instead; the service
//! stores it and asks `after_store` for the reply.

use vstd::prelude::*;
use vstd::string::StringExecFns;
use crate::encoding::decimal;
use crate::encoding::encode_count;
use crate::encoding::encode_strings;
use crate::encoding::encoded_strings;
use crate::recipe::copy_strings;
use crate::recipe::Recipe;
use crate::store::created;
use crate::store::find_in;
use crate::store::load;
use crate::store::loaded;
use crate::store::names_of;
use crate::store::replaced;
use crate::store::DocumentRead;
use crate::store::RecipeList;
use crate::store::StoreError;

verus! {

/// The request succeeded and the body carries what was asked for.
pub const STATUS_OK: u16 = 200;

/// The change was made; the body is empty.
pub const STATUS_CREATED: u16 = 201;

/// The request cannot be served as it stands.
pub const STATUS_BAD_REQUEST: u16 = 400;

/// No recipe has the name that the request gives.
pub const STATUS_NOT_FOUND: u16 = 404;

/// The service itself failed.
pub const STATUS_INTERNAL_ERROR: u16 = 500;

/// A reply: a status code and a body, which is JSON text or empty.
#[derive(Debug, PartialEq, Eq)]
pub struct Response {
    pub status: u16,
    pub body: String,
}

/// A reply as plain values.
pub struct ResponseView {
    pub status: u16,
    pub body: Seq<char>,
}

impl View for Response {
    type V = ResponseView;

    open spec fn view(&self) -> ResponseView {
        ResponseView { status: self.status, body: self.body@ }
    }
}

/// What a details reply tells of a recipe: its ingredients and its step count.
#[derive(Debug, PartialEq, Eq)]
pub struct Details {
    pub ingredients: Vec<String>,
    pub num_steps: usize,
}

/// What a handler decides for a change to the collection.
#[derive(Debug)]
pub enum Decision {
    /// Nothing is to be stored; this is the reply.
    Reply(Response),
    /// This collection is to be stored in place of the old one; the reply
    /// follows from `after_store`.
    Store(RecipeList),
}

/// The body that reports an error with a message.
pub open spec fn error_text(message: Seq<char>) -> Seq<char> {
    "{\"error\":\""@ + message + "\"}"@
}

/// The message that goes with each error.
pub open spec fn message_of(e: StoreError) -> Seq<char> {
    match e {
        StoreError::StorageUnavailable => "Storage unavailable"@,
        StoreError::CorruptDocument => "Corrupt document"@,
        StoreError::Conflict => "Recipe already exists"@,
        StoreError::NotFound => "Recipe does not exist"@,
    }
}

/// The status that goes with each error.
pub open spec fn status_of(e: StoreError) -> u16 {
    match e {
        StoreError::StorageUnavailable => STATUS_INTERNAL_ERROR,
        StoreError::CorruptDocument => STATUS_INTERNAL_ERROR,
        StoreError::Conflict => STATUS_BAD_REQUEST,
        StoreError::NotFound => STATUS_NOT_FOUND,
    }
}

/// The reply that reports an error of the store.
pub open spec fn error_reply(e: StoreError) -> ResponseView {
    ResponseView { status: status_of(e), body: error_text(message_of(e)) }
}

/// The reply where a body could not be encoded.
pub open spec fn encoding_failure_reply() -> ResponseView {
    ResponseView { status: STATUS_INTERNAL_ERROR, body: error_text("Encoding failed"@) }
}

/// The reply to a details request for a name that no recipe has.
pub open spec fn missing_reply() -> ResponseView {
    ResponseView { status: STATUS_NOT_FOUND, body: "{}"@ }
}

/// The reply to a change that was stored.
pub open spec fn created_reply() -> ResponseView {
    ResponseView { status: STATUS_CREATED, body: Seq::<char>::empty() }
}

/// The body that lists recipe names, around the encoded list.
pub open spec fn names_text(list: Seq<char>) -> Seq<char> {
    "{\"recipeNames\":"@ + list + "}"@
}

/// The body that gives a recipe's details, around the encoded ingredients and
/// the step count in decimal.
pub open spec fn details_text(ingredients: Seq<char>, steps: nat) -> Seq<char> {
    "{\"details\":{\"ingredients\":"@ + ingredients + ",\"numSteps\":"@ + decimal(steps) + "}}"@
}

/// The reply that lists names, for each outcome of encoding them.
pub open spec fn names_reply(encoded: Option<Seq<char>>) -> ResponseView {
    match encoded {
        Some(list) => ResponseView { status: STATUS_OK, body: names_text(list) },
        None => encoding_failure_reply(),
    }
}

/// The reply that gives details, for each outcome of encoding the ingredients.
pub open spec fn details_reply(encoded: Option<Seq<char>>, steps: nat) -> ResponseView {
    match encoded {
        Some(ingredients) => ResponseView {
            status: STATUS_OK,
            body: details_text(ingredients, steps),
        },
        None => encoding_failure_reply(),
    }
}

/// The reply to a request for the recipe names.
pub open spec fn names_answer(document: DocumentRead) -> ResponseView {
    match loaded(document) {
        Ok(c) => names_reply(encoded_strings(names_of(c))),
        Err(e) => error_reply(e),
    }
}

/// The reply to a request for the details of the recipe called `name`.
pub open spec fn details_answer(document: DocumentRead, name: Seq<char>) -> ResponseView {
    match loaded(document) {
        Ok(c) => match find_in(c, name) {
            Some(r) => details_reply(encoded_strings(r.ingredients), r.num_steps()),
            None => missing_reply(),
        },
        Err(e) => error_reply(e),
    }
}

fn message_for(e: StoreError) -> (message: &'static str)
    ensures
        message@ == message_of(e),
{
    match e {
        StoreError::StorageUnavailable => "Storage unavailable",
        StoreError::CorruptDocument => "Corrupt document",
        StoreError::Conflict => "Recipe already exists",
        StoreError::NotFound => "Recipe does not exist",
    }
}

fn status_for(e: StoreError) -> (status: u16)
    ensures
        status == status_of(e),
{
    match e {
        StoreError::StorageUnavailable => STATUS_INTERNAL_ERROR,
        StoreError::CorruptDocument => STATUS_INTERNAL_ERROR,
        StoreError::Conflict => STATUS_BAD_REQUEST,
        StoreError::NotFound => STATUS_NOT_FOUND,
    }
}

fn error_body(message: &str) -> (body: String)
    ensures
        body@ == error_text(message@),
{
    let mut body = "{\"error\":\"".to_owned();
    body.append(message);
    body.append("\"}");
    body
}

/// The reply that reports an error of the store: its status and its message.
pub fn error_response(e: StoreError) -> (response: Response)
    ensures
        response@ == error_reply(e),
{
    Response { status: status_for(e), body: error_body(message_for(e)) }
}

fn encoding_failure() -> (response: Response)
    ensures
        response@ == encoding_failure_reply(),
{
    Response { status: STATUS_INTERNAL_ERROR, body: error_body("Encoding failed") }
}

/// The reply that lists names: status 200 around the encoded list, or the
/// encoding failure where there is none.
pub fn names_response(encoded: Option<String>) -> (response: Response)
    ensures
        response@ == names_reply(
            match encoded {
                Some(list) => Some(list@),
                None => None,
            },
        ),
{
    match encoded {
        Some(list) => {
            let mut body = "{\"recipeNames\":".to_owned();
            body.append(list.as_str());
            body.append("}");
            Response { status: STATUS_OK, body }
        },
        None => encoding_failure(),
    }
}

/// The reply that gives details: status 200 around the encoded ingredients and
/// the step count, or the encoding failure where the ingredients have no text.
pub fn details_response(encoded: Option<String>, num_steps: usize) -> (response: Response)
    ensures
        response@ == details_reply(
            match encoded {
                Some(ingredients) => Some(ingredients@),
                None => None,
            },
            num_steps as nat,
        ),
{
    match encoded {
        Some(ingredients) => {
            let steps = encode_count(num_steps);
            let mut body = "{\"details\":{\"ingredients\":".to_owned();
            body.append(ingredients.as_str());
            body.append(",\"numSteps\":");
            body.append(steps.as_str());
            body.append("}}");
            Response { status: STATUS_OK, body }
        },
        None => encoding_failure(),
    }
}

/// The details of a recipe: its ingredients, and as step count the number of
/// its instructions.
pub fn details_of(recipe: &Recipe) -> (details: Details)
    ensures
        details.ingredients.deep_view() == recipe@.ingredients,
        details.num_steps == recipe@.instructions.len(),
{
    Details { ingredients: copy_strings(&recipe.ingredients), num_steps: recipe.instructions.len() }
}

/// Answers a request for the names of all recipes, in collection order.
pub fn get_recipe_names(document: DocumentRead) -> (response: Response)
    ensures
        response@ == names_answer(document),
{
    match load(document) {
        Ok(list) => {
            let names = list.list_names();
            names_response(encode_strings(&names))
        },
        Err(e) => error_response(e),
    }
}

/// Answers a request for the details of the recipe called `name`: its
/// ingredients and its step count, or status 404 where no recipe has the name.
pub fn get_recipe(document: DocumentRead, name: &String) -> (response: Response)
    ensures
        response@ == details_answer(document, name@),
{
    match load(document) {
        Ok(list) => match list.find_by_name(name) {
            Some(recipe) => {
                let details = details_of(recipe);
                details_response(encode_strings(&details.ingredients), details.num_steps)
            },
            None => Response { status: STATUS_NOT_FOUND, body: "{}".to_owned() },
        },
        Err(e) => error_response(e),
    }
}

/// Decides a request to add `recipe`: the collection with the recipe at its
/// end is to be stored, unless the name is taken or nothing valid was read.
pub fn add_recipe(document: DocumentRead, recipe: Recipe) -> (decision: Decision)
    ensures
        match loaded(document) {
            Ok(c) => match created(c, recipe@) {
                Ok(after) => decision matches Decision::Store(list) && list@ == after,
                Err(e) => decision matches Decision::Reply(response) && response@ == error_reply(e),
            },
            Err(e) => decision matches Decision::Reply(response) && response@ == error_reply(e),
        },
{
    match load(document) {
        Ok(list) => {
            let mut list = list;
            match list.create(recipe) {
                Ok(_) => Decision::Store(list),
                Err(e) => Decision::Reply(error_response(e)),
            }
        },
        Err(e) => Decision::Reply(error_response(e)),
    }
}

/// Decides a request to replace the recipe that carries `recipe`'s name: the
/// collection with `recipe` in that slot is to be stored, unless no recipe has
/// the name or nothing valid was read.
pub fn update_recipe(document: DocumentRead, recipe: Recipe) -> (decision: Decision)
    ensures
        match loaded(document) {
            Ok(c) => match replaced(c, recipe@) {
                Ok(after) => decision matches Decision::Store(list) && list@ == after,
                Err(e) => decision matches Decision::Reply(response) && response@ == error_reply(e),
            },
            Err(e) => decision matches Decision::Reply(response) && response@ == error_reply(e),
        },
{
    match load(document) {
        Ok(list) => {
            let mut list = list;
            match list.replace(recipe) {
                Ok(_) => Decision::Store(list),
                Err(e) => Decision::Reply(error_response(e)),
            }
        },
        Err(e) => Decision::Reply(error_response(e)),
    }
}

/// The reply to a change once the service has tried to store the collection:
/// status 201 with an empty body where it was stored, and the storage error
/// where it was not.
pub fn after_store(stored: bool) -> (response: Response)
    ensures
        response@ == if stored {
            created_reply()
        } else {
            error_reply(StoreError::StorageUnavailable)
        },
{
    if stored {
        Response { status: STATUS_CREATED, body: String::new() }
    } else {
        error_response(StoreError::StorageUnavailable)
    }
}

} // verus!
