//! What can go wrong with templates.

use vstd::prelude::*;
use vstd::string::*;
use crate::templates::kind::ArtifactKind;

verus! {

/// A template that the engine did not take. The registry is not made.
#[derive(Debug)]
pub struct LoadError {
    /// The name of the template.
    pub template: String,
    /// What the engine objects to.
    pub message: String,
}

/// Why an artifact was not rendered.
#[derive(Debug)]
pub enum Cause {
    /// The artifact needs a field that the device does not offer.
    MissingField(&'static str),
    /// A text that was handed over for a field holds a character that is
    /// kept for usage notes.
    Reserved(&'static str),
    /// The configuration could not be turned into data for the engine.
    Encoding(String),
    /// The engine failed on the template and its data.
    Engine(String),
}

/// An artifact that was not rendered. Nothing of it is left behind.
#[derive(Debug)]
pub struct RenderError {
    /// The kind of the artifact.
    pub kind: ArtifactKind,
    /// The identifier of the device, where the artifact is made for one.
    pub device: Option<&'static str>,
    /// Why it was not rendered.
    pub cause: Cause,
}

/// What a cause says.
pub ghost enum CauseView {
    MissingField(Seq<char>),
    Reserved(Seq<char>),
    Encoding(Seq<char>),
    Engine(Seq<char>),
}

/// What a render error says.
pub ghost struct RenderErrorView {
    pub kind: ArtifactKind,
    pub device: Option<Seq<char>>,
    pub cause: CauseView,
}

impl View for Cause {
    type V = CauseView;

    open spec fn view(&self) -> CauseView {
        match *self {
            Cause::MissingField(field) => CauseView::MissingField(field@),
            Cause::Reserved(field) => CauseView::Reserved(field@),
            Cause::Encoding(message) => CauseView::Encoding(message@),
            Cause::Engine(message) => CauseView::Engine(message@),
        }
    }
}

impl View for RenderError {
    type V = RenderErrorView;

    open spec fn view(&self) -> RenderErrorView {
        RenderErrorView {
            kind: self.kind,
            device: match self.device {
                Some(name) => Some(name@),
                None => None,
            },
            cause: self.cause@,
        }
    }
}

impl LoadError {
    /// What the error says, as text.
    pub open spec fn message_text(&self) -> Seq<char> {
        "template `"@ + self.template@ + "` was not loaded: "@ + self.message@
    }

    /// Tells the error, with the name of the template.
    pub fn message(&self) -> (message: String)
        ensures
            message@ == self.message_text(),
    {
        let mut message = String::from_str("template `");
        message.append(self.template.as_str());
        message.append("` was not loaded: ");
        message.append(self.message.as_str());
        message
    }
}

impl CauseView {
    /// What the cause says, as text.
    pub open spec fn text(self) -> Seq<char> {
        match self {
            CauseView::MissingField(field) => "the device does not offer `"@ + field + "`"@,
            CauseView::Reserved(field) => "`"@ + field + "` holds a character that is kept for usage notes"@,
            CauseView::Encoding(message) => "the configuration cannot be encoded: "@ + message,
            CauseView::Engine(message) => message,
        }
    }
}

impl RenderErrorView {
    /// What the error says, as text: the template of the artifact, the
    /// device where there is one, and the cause.
    pub open spec fn text(self) -> Seq<char> {
        match self.device {
            Some(device) => "`"@ + self.kind.template() + "` was not rendered for `"@ + device
                + "`: "@ + self.cause.text(),
            None => "`"@ + self.kind.template() + "` was not rendered: "@ + self.cause.text(),
        }
    }
}

impl RenderError {
    /// Tells the error: the artifact, the device where there is one, and
    /// the cause.
    pub fn message(&self) -> (message: String)
        ensures
            message@ == self@.text(),
    {
        let mut message = String::from_str("`");
        message.append(self.kind.template_name());
        match self.device {
            Some(device) => {
                message.append("` was not rendered for `");
                message.append(device);
                message.append("`: ");
            },
            None => {
                message.append("` was not rendered: ");
            },
        }
        match &self.cause {
            Cause::MissingField(field) => {
                message.append("the device does not offer `");
                message.append(field);
                message.append("`");
            },
            Cause::Reserved(field) => {
                message.append("`");
                message.append(field);
                message.append("` holds a character that is kept for usage notes");
            },
            Cause::Encoding(text) => {
                message.append("the configuration cannot be encoded: ");
                message.append(text.as_str());
            },
            Cause::Engine(text) => {
                message.append(text.as_str());
            },
        }
        proof {
            assert(message@ =~= self@.text());
        }
        message
    }
}

} // verus!
