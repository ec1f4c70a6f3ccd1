use vstd::prelude::*;

verus! {

/// The kind of failure an error value stands for.
#[derive(Debug, Clone, Copy, PartialEq, Eq, Structural)]
pub enum ErrorType {
    TpConfigErr,
    TpParseErr,
    TpTypeConvertErr,
    TpModelHandelErr,
    TpVoidErr,
}

/// Errors of this crate report their kind; an implementor that does not say
/// otherwise reports `TpVoidErr`.
pub trait VadError {
    fn get_error_type(&self) -> (r: ErrorType)
        default_ensures
            r == ErrorType::TpVoidErr,
    {
        ErrorType::TpVoidErr
    }
}

/// A configuration could not be loaded or used.
#[derive(Debug, Clone)]
pub struct ConfigErr {
    err_type: ErrorType,
    pub msg: String,
}

/// Input could not be parsed.
#[derive(Debug, Clone)]
pub struct ParseErr {
    err_type: ErrorType,
    pub msg: String,
}

/// A value could not be converted to the type it was needed in.
#[derive(Debug, Clone)]
pub struct TypeConvertErr {
    err_type: ErrorType,
    pub msg: String,
}

/// A model could not be loaded or run.
#[derive(Debug, Clone)]
pub struct ModelHandelErr {
    err_type: ErrorType,
    pub msg: String,
}

impl ConfigErr {
    /// The kind this error reports.
    pub closed spec fn kind(&self) -> ErrorType {
        self.err_type
    }

    /// The message the error carries.
    pub closed spec fn text(&self) -> String {
        self.msg
    }

    pub fn new() -> (r: Self)
        ensures
            r.kind() == ErrorType::TpConfigErr,
            r.text()@ == "config failed >_<"@,
    {
        ConfigErr { err_type: ErrorType::TpConfigErr, msg: String::from_str("config failed >_<") }
    }

    pub fn with_msg(msg: String) -> (r: Self)
        ensures
            r.kind() == ErrorType::TpConfigErr,
            r.text() == msg,
    {
        ConfigErr { err_type: ErrorType::TpConfigErr, msg }
    }

    /// The text the error is shown as: `Config Error: ` and the message.
    pub fn to_display_string(&self) -> (r: String)
        ensures
            r@ == "Config Error: "@ + self.text()@,
    {
        let mut r = String::from_str("Config Error: ");
        r.append(self.msg.as_str());
        r
    }
}

impl Default for ConfigErr {
    fn default() -> (r: Self)
        ensures
            r.kind() == ErrorType::TpConfigErr,
            r.text()@ == "config failed >_<"@,
    {
        Self::new()
    }
}

impl VadError for ConfigErr {
    fn get_error_type(&self) -> (r: ErrorType)
        ensures
            r == self.kind(),
    {
        self.err_type
    }
}

impl ParseErr {
    /// The kind this error reports.
    pub closed spec fn kind(&self) -> ErrorType {
        self.err_type
    }

    /// The message the error carries.
    pub closed spec fn text(&self) -> String {
        self.msg
    }

    pub fn new() -> (r: Self)
        ensures
            r.kind() == ErrorType::TpParseErr,
            r.text()@ == "parse params failed >_<"@,
    {
        ParseErr { err_type: ErrorType::TpParseErr, msg: String::from_str("parse params failed >_<") }
    }

    pub fn with_msg(msg: String) -> (r: Self)
        ensures
            r.kind() == ErrorType::TpParseErr,
            r.text() == msg,
    {
        ParseErr { err_type: ErrorType::TpParseErr, msg }
    }

    /// The text the error is shown as: `Parse Error: ` and the message.
    pub fn to_display_string(&self) -> (r: String)
        ensures
            r@ == "Parse Error: "@ + self.text()@,
    {
        let mut r = String::from_str("Parse Error: ");
        r.append(self.msg.as_str());
        r
    }
}

impl Default for ParseErr {
    fn default() -> (r: Self)
        ensures
            r.kind() == ErrorType::TpParseErr,
            r.text()@ == "parse params failed >_<"@,
    {
        Self::new()
    }
}

impl VadError for ParseErr {
    fn get_error_type(&self) -> (r: ErrorType)
        ensures
            r == self.kind(),
    {
        self.err_type
    }
}

impl TypeConvertErr {
    /// The kind this error reports.
    pub closed spec fn kind(&self) -> ErrorType {
        self.err_type
    }

    /// The message the error carries.
    pub closed spec fn text(&self) -> String {
        self.msg
    }

    pub fn new() -> (r: Self)
        ensures
            r.kind() == ErrorType::TpTypeConvertErr,
            r.text()@ == "type conversion failed >_<"@,
    {
        TypeConvertErr { err_type: ErrorType::TpTypeConvertErr, msg: String::from_str("type conversion failed >_<") }
    }

    pub fn with_msg(msg: String) -> (r: Self)
        ensures
            r.kind() == ErrorType::TpTypeConvertErr,
            r.text() == msg,
    {
        TypeConvertErr { err_type: ErrorType::TpTypeConvertErr, msg }
    }

    /// The text the error is shown as: `Type Conversion Error: ` and the message.
    pub fn to_display_string(&self) -> (r: String)
        ensures
            r@ == "Type Conversion Error: "@ + self.text()@,
    {
        let mut r = String::from_str("Type Conversion Error: ");
        r.append(self.msg.as_str());
        r
    }
}

impl Default for TypeConvertErr {
    fn default() -> (r: Self)
        ensures
            r.kind() == ErrorType::TpTypeConvertErr,
            r.text()@ == "type conversion failed >_<"@,
    {
        Self::new()
    }
}

impl VadError for TypeConvertErr {
    fn get_error_type(&self) -> (r: ErrorType)
        ensures
            r == self.kind(),
    {
        self.err_type
    }
}

impl ModelHandelErr {
    /// The kind this error reports.
    pub closed spec fn kind(&self) -> ErrorType {
        self.err_type
    }

    /// The message the error carries.
    pub closed spec fn text(&self) -> String {
        self.msg
    }

    pub fn new() -> (r: Self)
        ensures
            r.kind() == ErrorType::TpModelHandelErr,
            r.text()@ == "model handling failed >_<"@,
    {
        ModelHandelErr { err_type: ErrorType::TpModelHandelErr, msg: String::from_str("model handling failed >_<") }
    }

    pub fn with_msg(msg: String) -> (r: Self)
        ensures
            r.kind() == ErrorType::TpModelHandelErr,
            r.text() == msg,
    {
        ModelHandelErr { err_type: ErrorType::TpModelHandelErr, msg }
    }

    /// The text the error is shown as: `Model Handling Error: ` and the message.
    pub fn to_display_string(&self) -> (r: String)
        ensures
            r@ == "Model Handling Error: "@ + self.text()@,
    {
        let mut r = String::from_str("Model Handling Error: ");
        r.append(self.msg.as_str());
        r
    }
}

impl Default for ModelHandelErr {
    fn default() -> (r: Self)
        ensures
            r.kind() == ErrorType::TpModelHandelErr,
            r.text()@ == "model handling failed >_<"@,
    {
        Self::new()
    }
}

impl VadError for ModelHandelErr {
    fn get_error_type(&self) -> (r: ErrorType)
        ensures
            r == self.kind(),
    {
        self.err_type
    }
}

} // verus!
