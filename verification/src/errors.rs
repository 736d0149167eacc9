use vstd::prelude::*;

use crate::geometry::SizeError;

verus! {

use vstd::string::StringExecFns;

/// One failure of the rendering pipeline, tagged by the component it came
/// from. Only a rejected expression counts as caused by the client.
#[derive(Debug)]
pub enum RenderError {
    /// The translator rejected the expression; the text is its message.
    Latex(String),
    /// The vector document was malformed; the text is the parser's message.
    Vector(String),
    /// Degenerate or oversized document geometry.
    Size(SizeError),
    /// The bitmap encoder failed; the text is its message.
    Encode(String),
}

impl RenderError {
    /// A client-caused error: only a rejected expression.
    pub open spec fn is_client_error(&self) -> bool {
        self is Latex
    }

    /// The error detail, without its classifying prefix.
    pub open spec fn spec_detail(&self) -> Seq<char> {
        match self {
            RenderError::Latex(m) => m@,
            RenderError::Vector(m) => m@,
            RenderError::Size(e) => e.spec_text(),
            RenderError::Encode(m) => m@,
        }
    }

    /// The message the boundary reports: the client prefix for a translator
    /// error, the internal prefix for everything else, then the detail.
    pub open spec fn spec_message(&self) -> Seq<char> {
        if self.is_client_error() {
            "LaTeX Error: "@ + self.spec_detail()
        } else {
            "Internal Error: "@ + self.spec_detail()
        }
    }

    /// The HTTP status the boundary reports: 400 exactly for the
    /// client-caused translator error, 500 for everything else.
    pub fn status(&self) -> (r: u16)
        ensures
            r == 400 <==> self.is_client_error(),
            r == 400 || r == 500,
    {
        match self {
            RenderError::Latex(_) => 400,
            _ => 500,
        }
    }

    /// Build the full prefixed message.
    pub fn message(&self) -> (r: String)
        ensures
            r@ == self.spec_message(),
    {
        let mut out: String = match self {
            RenderError::Latex(_) => String::from_str("LaTeX Error: "),
            _ => String::from_str("Internal Error: "),
        };
        match self {
            RenderError::Latex(m) => out.append(m.as_str()),
            RenderError::Vector(m) => out.append(m.as_str()),
            RenderError::Size(e) => out.append(e.text()),
            RenderError::Encode(m) => out.append(m.as_str()),
        }
        out
    }
}

/// External collaborator boundary: accept the translator's outcome. A
/// document it produced passes through unchanged; an expression it rejected
/// becomes the client-caused translator error carrying its message.
pub fn accept_translation(outcome: Result<String, String>) -> (r: Result<String, RenderError>)
    ensures
        outcome matches Ok(svg) ==> r matches Ok(s) && s@ == svg@,
        outcome matches Err(m) ==> r matches Err(e) && e is Latex && e.spec_detail() == m@
            && e.is_client_error(),
{
    match outcome {
        Ok(svg) => Ok(svg),
        Err(m) => Err(RenderError::Latex(m)),
    }
}

} // verus!
