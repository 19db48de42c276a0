use vstd::prelude::*;

use crate::error::{message_of, status_of, AuthError};

verus! {

/// The status of a response that reports success.
pub const OK: u16 = 200;

/// The status of a response to a fault that nothing else accounts for.
pub const INTERNAL_SERVER_ERROR: u16 = 500;

/// The envelope in which every answer leaves: a status, the data and a
/// text for the reader.
#[derive(Debug)]
pub struct CustomResponse<T> {
    status_code: u16,
    data: T,
    message: String,
}

impl<T> CustomResponse<T> {
    /// The status with which the response leaves.
    pub closed spec fn status(&self) -> u16 {
        self.status_code
    }

    /// The data that the response carries.
    pub closed spec fn data(&self) -> T {
        self.data
    }

    /// The text that the response carries.
    pub closed spec fn text(&self) -> Seq<char> {
        self.message@
    }

    /// A response that carries `data`, reports success and says nothing.
    pub fn builder(data: T) -> (response: CustomResponse<T>)
        ensures
            response.status() == OK,
            response.data() == data,
            response.text() == Seq::<char>::empty(),
    {
        CustomResponse { status_code: OK, data, message: String::new() }
    }

    /// The same response with another text.
    pub fn message(self, message: &str) -> (response: Self)
        ensures
            response.status() == self.status(),
            response.data() == self.data(),
            response.text() == message@,
    {
        CustomResponse {
            status_code: self.status_code,
            data: self.data,
            message: message.to_string(),
        }
    }

    /// The same response with another status.
    pub fn status_code(self, status_code: u16) -> (response: Self)
        ensures
            response.status() == status_code,
            response.data() == self.data(),
            response.text() == self.text(),
    {
        CustomResponse { status_code, data: self.data, message: self.message }
    }

    /// The three parts of the finished response: status, data and text.
    pub fn build(self) -> (parts: (u16, T, String))
        ensures
            parts.0 == self.status(),
            parts.1 == self.data(),
            parts.2@ == self.text(),
    {
        (self.status_code, self.data, self.message)
    }
}

/// The response that reports `error`: no data, the status and the text
/// that go with the error.
pub fn to_error_response(error: &AuthError) -> (response: CustomResponse<()>)
    ensures
        response.status() == status_of(error@),
        response.text() == message_of(error@),
{
    let text = error.message();
    CustomResponse::builder(()).message(text.as_str()).status_code(error.status_code())
}

/// A response without data, with the given text and status.
pub fn to_error_response_with_message(message: &str, status: u16) -> (response: CustomResponse<()>)
    ensures
        response.status() == status,
        response.text() == message@,
{
    CustomResponse::builder(()).message(message).status_code(status)
}

/// The text that answers a fault within a handler: what the fault said of
/// itself, or a general apology.
pub open spec fn fault_text(said: Option<Seq<char>>) -> Seq<char> {
    match said {
        Some(text) => text,
        None => "Something went wrong."@,
    }
}

/// The response that answers a fault which no handler accounted for, so
/// that the fault ends one request and not the service.
pub fn handle_panic(said: Option<&str>) -> (response: CustomResponse<()>)
    ensures
        response.status() == INTERNAL_SERVER_ERROR,
        response.text() == fault_text(
            match said {
                Some(text) => Some(text@),
                None => None,
            },
        ),
{
    let message = match said {
        Some(text) => text,
        None => "Something went wrong.",
    };
    to_error_response_with_message(message, INTERNAL_SERVER_ERROR)
}

} // verus!
