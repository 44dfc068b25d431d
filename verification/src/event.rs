//! The events of a build, and the ways in which a stream of them can fail.

use vstd::prelude::*;

verus! {

/// One event of a build, as far as it matters here.
#[derive(Debug)]
pub enum BuildEvent {
    /// A build script ran, and declared these libraries, each in the form
    /// `[kind=]name`.
    BuildScriptExecuted { linked_libs: Vec<String> },
    /// The compiler produced an artifact. `executable` is the path of the
    /// artifact if it can be run.
    CompilerArtifactProduced { executable: Option<String> },
    /// Any other event.
    Other,
}

/// A [`BuildEvent`] as a plain value.
pub enum BuildEventView {
    BuildScriptExecuted { linked_libs: Seq<Seq<char>> },
    CompilerArtifactProduced { executable: Option<Seq<char>> },
    Other,
}

impl View for BuildEvent {
    type V = BuildEventView;

    open spec fn view(&self) -> BuildEventView {
        match self {
            BuildEvent::BuildScriptExecuted { linked_libs } => BuildEventView::BuildScriptExecuted {
                linked_libs: linked_libs.deep_view(),
            },
            BuildEvent::CompilerArtifactProduced { executable } => {
                BuildEventView::CompilerArtifactProduced {
                    executable: match executable {
                        Some(path) => Some(path@),
                        None => None,
                    },
                }
            },
            BuildEvent::Other => BuildEventView::Other,
        }
    }
}

impl DeepView for BuildEvent {
    type V = BuildEventView;

    open spec fn deep_view(&self) -> BuildEventView {
        self@
    }
}

/// Why a stream of build events could not be interpreted.
#[derive(Debug)]
pub enum StreamError {
    /// A line of the stream is no record of a build: it could not be read,
    /// it is no record at all, or it is a record of a known kind without
    /// what such a record holds.
    Protocol,
    /// A build script declared a library under a kind that does not exist.
    /// The text holds what stood in the kind's place.
    LinkGrammar(String),
}

/// A [`StreamError`] as a plain value.
pub enum StreamErrorView {
    Protocol,
    LinkGrammar(Seq<char>),
}

impl View for StreamError {
    type V = StreamErrorView;

    open spec fn view(&self) -> StreamErrorView {
        match self {
            StreamError::Protocol => StreamErrorView::Protocol,
            StreamError::LinkGrammar(text) => StreamErrorView::LinkGrammar(text@),
        }
    }
}

} // verus!
