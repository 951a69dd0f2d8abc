//! The error taxonomy of the backend and the failure envelope sent to clients.
use vstd::prelude::*;

verus! {

/// A domain failure: detected by a handler, sent with its own message.
#[derive(Clone, Copy, Debug, PartialEq, Eq, Structural)]
pub enum Fault {
    SessionRequired,
    InvalidCredentials,
    ProfileNotFound,
    TeacherIdRequired,
    SubjectExists,
    SubjectNotFound,
    SubjectMissing,
    ClassExists,
    ClassNotFound,
    ClassMissing,
    RoomExists,
    RoomNotFound,
    RoomMissing,
    StudentExists,
    StudentNotFound,
    StudentClassUnknown,
    StudentPasswordRequired,
    EmployeePhoneTaken,
    TeacherNotFound,
    UnknownSubject,
    UnknownRoom,
    PrincipalPhoneTaken,
    PrincipalNotFound,
    PrincipalMissing,
    MarkReferenceUnknown,
}

/// The message a client sees for a fault.
pub open spec fn fault_text(f: Fault) -> Seq<char> {
    match f {
        Fault::SessionRequired => "Необходима авторизация"@,
        Fault::InvalidCredentials => "Неправильный телефон или пароль"@,
        Fault::ProfileNotFound => "Работник с таким ИД не существует"@,
        Fault::TeacherIdRequired => "teacher_id is required"@,
        Fault::SubjectExists => "Такой предмет уже существует"@,
        Fault::SubjectNotFound => "Предмета с таким ИД не существует"@,
        Fault::SubjectMissing => "Такого предмета не существует"@,
        Fault::ClassExists => "Такой класс уже существует"@,
        Fault::ClassNotFound => "Класса с таким ИД не существует"@,
        Fault::ClassMissing => "Такого класса не существует"@,
        Fault::RoomExists => "Такой кабинет уже существует"@,
        Fault::RoomNotFound => "Комнаты с таким ИД не существует"@,
        Fault::RoomMissing => "Такого кабинета не существует"@,
        Fault::StudentExists => "Такой ученик уже существует в данном классе"@,
        Fault::StudentNotFound => "Ученик с таким ИД не существует"@,
        Fault::StudentClassUnknown => "Класс с таким ИД не существует"@,
        Fault::StudentPasswordRequired => "Необходим пароль для ученика"@,
        Fault::EmployeePhoneTaken => "Работник с таким номером телефона уже существует"@,
        Fault::TeacherNotFound => "Учителя с таким ИД не существует"@,
        Fault::UnknownSubject => "Предмета с таким ИД не существует"@,
        Fault::UnknownRoom => "Кабинета с таким ИД не существует"@,
        Fault::PrincipalPhoneTaken => "Завуч с таким номером телефона уже существует"@,
        Fault::PrincipalNotFound => "Завуч с таким ИД не существует"@,
        Fault::PrincipalMissing => "Завуча с таким ИД не существует"@,
        Fault::MarkReferenceUnknown => "Ученик, предмет или учитель с таким ИД не существует"@,
    }
}

/// The HTTP status of a fault: 401 for a missing session, 404 for a principal
/// or a profile that is not there, 400 for the rest.
pub open spec fn fault_status(f: Fault) -> u16 {
    match f {
        Fault::SessionRequired => 401,
        Fault::ProfileNotFound | Fault::PrincipalNotFound | Fault::PrincipalMissing => 404,
        _ => 400,
    }
}

impl Fault {
    /// The message of this fault.
    pub fn message(&self) -> (r: String)
        ensures
            r@ == fault_text(*self),
    {
        let text: &str = match self {
            Fault::SessionRequired => "Необходима авторизация",
            Fault::InvalidCredentials => "Неправильный телефон или пароль",
            Fault::ProfileNotFound => "Работник с таким ИД не существует",
            Fault::TeacherIdRequired => "teacher_id is required",
            Fault::SubjectExists => "Такой предмет уже существует",
            Fault::SubjectNotFound => "Предмета с таким ИД не существует",
            Fault::SubjectMissing => "Такого предмета не существует",
            Fault::ClassExists => "Такой класс уже существует",
            Fault::ClassNotFound => "Класса с таким ИД не существует",
            Fault::ClassMissing => "Такого класса не существует",
            Fault::RoomExists => "Такой кабинет уже существует",
            Fault::RoomNotFound => "Комнаты с таким ИД не существует",
            Fault::RoomMissing => "Такого кабинета не существует",
            Fault::StudentExists => "Такой ученик уже существует в данном классе",
            Fault::StudentNotFound => "Ученик с таким ИД не существует",
            Fault::StudentClassUnknown => "Класс с таким ИД не существует",
            Fault::StudentPasswordRequired => "Необходим пароль для ученика",
            Fault::EmployeePhoneTaken => "Работник с таким номером телефона уже существует",
            Fault::TeacherNotFound => "Учителя с таким ИД не существует",
            Fault::UnknownSubject => "Предмета с таким ИД не существует",
            Fault::UnknownRoom => "Кабинета с таким ИД не существует",
            Fault::PrincipalPhoneTaken => "Завуч с таким номером телефона уже существует",
            Fault::PrincipalNotFound => "Завуч с таким ИД не существует",
            Fault::PrincipalMissing => "Завуча с таким ИД не существует",
            Fault::MarkReferenceUnknown => "Ученик, предмет или учитель с таким ИД не существует",
        };
        String::from_str(text)
    }

    /// The HTTP status of this fault.
    pub fn status(&self) -> (r: u16)
        ensures
            r == fault_status(*self),
    {
        match self {
            Fault::SessionRequired => 401,
            Fault::ProfileNotFound | Fault::PrincipalNotFound | Fault::PrincipalMissing => 404,
            _ => 400,
        }
    }
}

/// Every way a request can fail.
#[derive(Clone, Debug, PartialEq, Eq)]
pub enum Error {
    /// The store failed in a way no handler translates; the detail is for the log.
    Store { detail: String },
    /// An I/O failure; the detail is for the log.
    Io { detail: String },
    /// A stored password hash is no PHC string.
    MalformedHash,
    /// The request body could not be read; the detail says why.
    JsonRejection { detail: String },
    /// The query string could not be read; the detail says why.
    QueryRejection { detail: String },
    /// The path parameters could not be read; the detail says why.
    PathRejection { detail: String },
    /// A second factor is required.
    Mfa,
    /// A domain failure.
    Domain(Fault),
}

pub open spec fn mfa_text() -> Seq<char> {
    "Необходима двухвакторная авторизация"@
}

/// What a client is told when the server itself failed.
pub open spec fn internal_text() -> Seq<char> {
    "Внутренняя серверная ошибка, обратитесь к администрации"@
}

/// The HTTP status of an error.
pub open spec fn error_status(e: Error) -> u16 {
    match e {
        Error::Store { .. } | Error::Io { .. } | Error::MalformedHash => 500,
        Error::JsonRejection { .. } | Error::QueryRejection { .. } | Error::PathRejection { .. }
        | Error::Mfa => 400,
        Error::Domain(f) => fault_status(f),
    }
}

/// The full text of an error, as it is logged.
pub open spec fn error_text(e: Error) -> Seq<char> {
    match e {
        Error::Store { detail } => "Sqlx: "@ + detail@,
        Error::Io { detail } => "Io: "@ + detail@,
        Error::MalformedHash => "Argon2: the stored password hash is malformed"@,
        Error::JsonRejection { detail } => detail@,
        Error::QueryRejection { detail } => detail@,
        Error::PathRejection { detail } => detail@,
        Error::Mfa => mfa_text(),
        Error::Domain(f) => fault_text(f),
    }
}

/// The message a client is sent: the full text, but for server failures,
/// whose detail never leaves the server.
pub open spec fn client_message(e: Error) -> Seq<char> {
    if 500 <= error_status(e) { internal_text() } else { error_text(e) }
}

/// The form field an error points at, if any.
pub open spec fn error_field(e: Error) -> Option<Seq<char>> {
    match e {
        Error::Mfa => Some("2fa"@),
        _ => None,
    }
}

/// The JSON text of a string: its quoted, escaped form.
pub uninterp spec fn json_text(s: Seq<char>) -> Seq<char>;

/// Relies on serde_json::to_string on a `str`: it writes the JSON string
/// literal of the text, and cannot fail on a `str`.
#[verifier::external_body]
fn quote_json(s: &str) -> (r: String)
    ensures
        r@ == json_text(s@),
{
    serde_json::to_string(s).unwrap()
}

/// The failure envelope: `{"message":…,"field":…,"success":false}`.
pub open spec fn failure_body(message: Seq<char>, field: Option<Seq<char>>) -> Seq<char> {
    "{\"message\":"@ + json_text(message) + ",\"field\":"@ + match field {
        Some(f) => json_text(f),
        None => "null"@,
    } + ",\"success\":false}"@
}

/// The success envelope around the JSON text of a payload:
/// `{"data":…,"success":true}`.
pub open spec fn success_body(data: Seq<char>) -> Seq<char> {
    "{\"data\":"@ + data + ",\"success\":true}"@
}

/// An HTTP response: a status and a JSON body.
#[derive(Clone, Debug, PartialEq, Eq)]
pub struct Response {
    pub status: u16,
    pub body: String,
}

impl Error {
    /// The HTTP status of this error.
    pub fn status(&self) -> (r: u16)
        ensures
            r == error_status(*self),
    {
        match self {
            Error::Store { .. } | Error::Io { .. } | Error::MalformedHash => 500,
            Error::JsonRejection { .. } | Error::QueryRejection { .. } | Error::PathRejection {
                ..
            } | Error::Mfa => 400,
            Error::Domain(f) => f.status(),
        }
    }

    /// The full text of this error, as it is logged.
    pub fn text(&self) -> (r: String)
        ensures
            r@ == error_text(*self),
    {
        match self {
            Error::Store { detail } => String::from_str("Sqlx: ").concat(detail.as_str()),
            Error::Io { detail } => String::from_str("Io: ").concat(detail.as_str()),
            Error::MalformedHash => String::from_str("Argon2: the stored password hash is malformed"),
            Error::JsonRejection { detail } => detail.clone(),
            Error::QueryRejection { detail } => detail.clone(),
            Error::PathRejection { detail } => detail.clone(),
            Error::Mfa => String::from_str("Необходима двухвакторная авторизация"),
            Error::Domain(f) => f.message(),
        }
    }

    /// The message a client is sent.
    pub fn client_message(&self) -> (r: String)
        ensures
            r@ == client_message(*self),
    {
        if self.status() >= 500 {
            String::from_str("Внутренняя серверная ошибка, обратитесь к администрации")
        } else {
            self.text()
        }
    }

    /// The form field this error points at.
    pub fn field(&self) -> (r: Option<String>)
        ensures
            r matches Some(f) ==> error_field(*self) == Some(f@),
            r is None ==> error_field(*self) is None,
    {
        match self {
            Error::Mfa => Some(String::from_str("2fa")),
            _ => None,
        }
    }

    /// The response sent for this error: its status and the failure envelope.
    pub fn into_response(self) -> (r: Response)
        ensures
            r.status == error_status(self),
            r.body@ == failure_body(client_message(self), error_field(self)),
    {
        let status = self.status();
        let message = self.client_message();
        let mut body = String::from_str("{\"message\":");
        body.append(quote_json(message.as_str()).as_str());
        body.append(",\"field\":");
        match self.field() {
            Some(f) => body.append(quote_json(f.as_str()).as_str()),
            None => body.append("null"),
        }
        body.append(",\"success\":false}");
        Response { status, body }
    }
}

/// The success response around the JSON text of a payload.
pub fn success_response(data: &str) -> (r: Response)
    ensures
        r.status == 200,
        r.body@ == success_body(data@),
{
    let mut body = String::from_str("{\"data\":");
    body.append(data);
    body.append(",\"success\":true}");
    Response { status: 200, body }
}

} // verus!
