use vstd::prelude::*;
use vstd::string::StringExecFns;
use crate::errors::global_error_codes::GlobalErrorCode;

verus! {

/// What an [`ErrorResponse`] holds, as plain values.
pub struct ErrorResponseModel {
    pub status_code: u16,
    pub description: Seq<char>,
    pub error_code: GlobalErrorCode,
    pub developer_notes: Option<Seq<char>>,
}

/// What a client is told of an error.
#[derive(Debug)]
pub struct ErrorResponse {
    status_code: u16,
    description: String,
    error_code: GlobalErrorCode,
    developer_notes: Option<String>,
}

impl View for ErrorResponse {
    type V = ErrorResponseModel;

    closed spec fn view(&self) -> ErrorResponseModel {
        ErrorResponseModel {
            status_code: self.status_code,
            description: self.description@,
            error_code: self.error_code,
            developer_notes: match self.developer_notes {
                Some(notes) => Some(notes@),
                None => None,
            },
        }
    }
}

impl ErrorResponseModel {
    /// The response in one text: the code's name, the description and, on
    /// a line of their own, the notes for developers, if there are any.
    pub open spec fn text(self) -> Seq<char> {
        let head = "(#"@ + self.error_code.name() + "): "@ + self.description;
        match self.developer_notes {
            Some(notes) => head + "\nDeveloper Notes: "@ + notes,
            None => head,
        }
    }
}

impl ErrorResponse {
    pub fn new(
        status_code: u16,
        description: String,
        error_code: GlobalErrorCode,
        developer_notes: String,
    ) -> (response: Self)
        ensures
            response@ == (ErrorResponseModel {
                status_code,
                description: description@,
                error_code,
                developer_notes: Some(developer_notes@),
            }),
    {
        ErrorResponse { status_code, description, error_code, developer_notes: Some(developer_notes) }
    }

    /// A response read back from the wire, where no status travels: it
    /// gets the status of a server error.
    pub fn from_wire(description: String, error_code: GlobalErrorCode, developer_notes: Option<String>) -> (response:
        Self)
        ensures
            response@.status_code == 500,
            response@.description == description@,
            response@.error_code == error_code,
            response@.developer_notes is Some <==> developer_notes is Some,
            developer_notes is Some ==> response@.developer_notes->Some_0 == developer_notes->Some_0@,
    {
        ErrorResponse { status_code: 500, description, error_code, developer_notes }
    }

    pub fn get_status_code(&self) -> (status_code: u16)
        ensures
            status_code == self@.status_code,
    {
        self.status_code
    }

    pub fn get_description(&self) -> (description: &String)
        ensures
            description@ == self@.description,
    {
        &self.description
    }

    pub fn get_error_code(&self) -> (error_code: &GlobalErrorCode)
        ensures
            *error_code == self@.error_code,
    {
        &self.error_code
    }

    pub fn get_developer_notes(&self) -> (developer_notes: Option<&String>)
        ensures
            developer_notes is Some <==> self@.developer_notes is Some,
            developer_notes is Some ==> developer_notes->Some_0@ == self@.developer_notes->Some_0,
    {
        self.developer_notes.as_ref()
    }

    /// The notes for developers as they go over the wire: none outside a
    /// debug build.
    pub fn wire_developer_notes(&self, debug_build: bool) -> (developer_notes: Option<&String>)
        ensures
            developer_notes is Some <==> debug_build && self@.developer_notes is Some,
            developer_notes is Some ==> developer_notes->Some_0@ == self@.developer_notes->Some_0,
    {
        if debug_build {
            self.developer_notes.as_ref()
        } else {
            None
        }
    }

    /// The response in one text.
    pub fn to_text(&self) -> (text: String)
        ensures
            text@ == self@.text(),
    {
        let mut text = String::from_str("(#");
        let name = self.error_code.get_name();
        text.append(name.as_str());
        text.append("): ");
        text.append(self.description.as_str());
        match &self.developer_notes {
            Some(notes) => {
                text.append("\nDeveloper Notes: ");
                text.append(notes.as_str());
            },
            None => {},
        }
        text
    }
}

} // verus!
