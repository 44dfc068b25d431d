//! What one build declared and produced.

use vstd::prelude::*;

use crate::descriptor::{
    declared_kind, declared_name, kind_text, try_parse_library_output, well_formed,
};
use crate::event::{BuildEvent, BuildEventView, StreamError, StreamErrorView};
use crate::linked_libs::{LinkedLibs, LinkedLibsView};

verus! {

/// What a [`Metadata`] holds.
#[verifier::ext_equal]
pub struct MetadataView {
    pub linked_libs: LinkedLibsView,
    pub executables: Seq<Seq<char>>,
}

/// The libraries that the build scripts of a build declared, and the
/// executables that the build produced, in the order in which they were
/// reported. An executable that was reported twice is listed twice.
#[derive(Debug)]
pub struct Metadata {
    pub linked_libs: LinkedLibs,
    pub executables: Vec<String>,
}

impl View for Metadata {
    type V = MetadataView;

    open spec fn view(&self) -> MetadataView {
        MetadataView { linked_libs: self.linked_libs@, executables: self.executables.deep_view() }
    }
}

/// How many declarations at the start of a list can be read: the place of
/// the first that cannot, or the length of the list.
pub open spec fn readable_prefix(tokens: Seq<Seq<char>>) -> int
    decreases tokens.len(),
{
    if tokens.len() == 0 || !well_formed(tokens[0]) {
        0
    } else {
        1 + readable_prefix(tokens.drop_first())
    }
}

/// A collection of libraries after the declarations of a list were added to
/// it, one after the other.
pub open spec fn declared(libs: LinkedLibsView, tokens: Seq<Seq<char>>) -> LinkedLibsView
    decreases tokens.len(),
{
    if tokens.len() == 0 {
        libs
    } else {
        declared(libs, tokens.drop_last()).with(
            declared_kind(tokens.last()),
            declared_name(tokens.last()),
        )
    }
}

/// The declarations that an event brings.
pub open spec fn declarations(event: BuildEventView) -> Seq<Seq<char>> {
    match event {
        BuildEventView::BuildScriptExecuted { linked_libs } => linked_libs,
        _ => Seq::empty(),
    }
}

/// Whether every declaration of an event can be read.
pub open spec fn readable(event: BuildEventView) -> bool {
    readable_prefix(declarations(event)) == declarations(event).len()
}

/// What stands in the kind's place in the first declaration of an event that
/// cannot be read.
pub open spec fn unknown_kind(event: BuildEventView) -> Seq<char> {
    kind_text(declarations(event)[readable_prefix(declarations(event))]).unwrap()
}

/// The state after an event all of whose declarations can be read: the
/// declarations of a build script are added to the libraries, the
/// executable of an artifact is added at the end of the executables, and
/// any other event changes nothing.
pub open spec fn recorded(state: MetadataView, event: BuildEventView) -> MetadataView {
    match event {
        BuildEventView::BuildScriptExecuted { linked_libs } => MetadataView {
            linked_libs: declared(state.linked_libs, linked_libs),
            executables: state.executables,
        },
        BuildEventView::CompilerArtifactProduced { executable: Some(path) } => MetadataView {
            linked_libs: state.linked_libs,
            executables: state.executables.push(path),
        },
        _ => state,
    }
}

/// The state after an event that holds a declaration which cannot be read:
/// the declarations before that one are added to the libraries.
pub open spec fn interrupted(state: MetadataView, event: BuildEventView) -> MetadataView {
    MetadataView {
        linked_libs: declared(
            state.linked_libs,
            declarations(event).take(readable_prefix(declarations(event))),
        ),
        executables: state.executables,
    }
}

/// What one event gives, from a state on: the state after it, or the error
/// of the first of its declarations that cannot be read.
pub open spec fn after_event(state: MetadataView, event: BuildEventView) -> Result<
    MetadataView,
    StreamErrorView,
> {
    if readable(event) {
        Ok(recorded(state, event))
    } else {
        Err(StreamErrorView::LinkGrammar(unknown_kind(event)))
    }
}

/// What a list of events gives, from a state on. The events are taken from
/// the first to the last; the first that holds a declaration which cannot be
/// read ends the reading with its error.
pub open spec fn interpreted(state: MetadataView, events: Seq<BuildEventView>) -> Result<
    MetadataView,
    StreamErrorView,
>
    decreases events.len(),
{
    if events.len() == 0 {
        Ok(state)
    } else {
        match after_event(state, events[0]) {
            Ok(next) => interpreted(next, events.drop_first()),
            Err(error) => Err(error),
        }
    }
}

/// The outcome of an interpretation as a plain value.
pub open spec fn outcome(read: Result<Metadata, StreamError>) -> Result<
    MetadataView,
    StreamErrorView,
> {
    match read {
        Ok(metadata) => Ok(metadata@),
        Err(error) => Err(error@),
    }
}

/// The state before any event.
pub open spec fn initial() -> MetadataView {
    MetadataView { linked_libs: LinkedLibsView::empty(), executables: Seq::empty() }
}

/// A place before which every declaration can be read, and at which none
/// can, is where the readable declarations end.
pub proof fn lemma_readable_prefix(tokens: Seq<Seq<char>>, at: int)
    requires
        0 <= at <= tokens.len(),
        forall|j: int| 0 <= j < at ==> well_formed(#[trigger] tokens[j]),
        at < tokens.len() ==> !well_formed(tokens[at]),
    ensures
        readable_prefix(tokens) == at,
    decreases tokens.len(),
{
    if at > 0 {
        assert(well_formed(tokens[0]));
        let rest = tokens.drop_first();
        assert forall|j: int| 0 <= j < at - 1 implies well_formed(#[trigger] rest[j]) by {
            assert(rest[j] == tokens[j + 1]);
        }
        lemma_readable_prefix(rest, at - 1);
    }
}

impl Metadata {
    /// The state before any event.
    pub fn new() -> (metadata: Metadata)
        ensures
            metadata@ == initial(),
    {
        let metadata = Metadata { linked_libs: LinkedLibs::new(), executables: Vec::new() };
        assert(metadata.executables.deep_view() =~= Seq::empty());
        metadata
    }

    /// Takes one event into account. If the event holds a declaration that
    /// cannot be read, the declarations before it are recorded and the
    /// error names the kind that is not known.
    pub fn record(&mut self, event: &BuildEvent) -> (done: Result<(), StreamError>)
        ensures
            done is Ok <==> readable(event@),
            done is Ok ==> final(self)@ == recorded(old(self)@, event@),
            done matches Err(error) ==> error@ == StreamErrorView::LinkGrammar(unknown_kind(event@)),
            done is Err ==> final(self)@ == interrupted(old(self)@, event@),
    {
        match event {
            BuildEvent::BuildScriptExecuted { linked_libs } => {
                let ghost tokens = linked_libs.deep_view();
                let mut at: usize = 0;
                assert(tokens.take(0) =~= Seq::empty());
                while at < linked_libs.len()
                    invariant
                        at <= linked_libs.len(),
                        tokens == linked_libs.deep_view(),
                        tokens == declarations(event@),
                        forall|j: int| 0 <= j < at ==> well_formed(#[trigger] tokens[j]),
                        self.executables == old(self).executables,
                        self.linked_libs@ == declared(
                            old(self).linked_libs@,
                            tokens.take(at as int),
                        ),
                    decreases linked_libs.len() - at,
                {
                    let token = linked_libs[at].clone();
                    assert(token@ == tokens[at as int]);
                    match try_parse_library_output(token) {
                        Ok((lib_type, lib_name)) => {
                            self.linked_libs.add(lib_type, lib_name);
                        },
                        Err(unknown) => {
                            proof {
                                lemma_readable_prefix(tokens, at as int);
                            }
                            return Err(StreamError::LinkGrammar(unknown));
                        },
                    }
                    proof {
                        assert(tokens.take(at + 1).drop_last() =~= tokens.take(at as int));
                        assert(tokens.take(at + 1).last() == tokens[at as int]);
                    }
                    at += 1;
                }
                proof {
                    lemma_readable_prefix(tokens, at as int);
                    assert(tokens.take(at as int) =~= tokens);
                }
                Ok(())
            },
            BuildEvent::CompilerArtifactProduced { executable } => {
                if let Some(path) = executable {
                    self.executables.push(path.clone());
                    assert(self.executables.deep_view() =~= old(self).executables.deep_view().push(
                        path@,
                    ));
                }
                Ok(())
            },
            BuildEvent::Other => Ok(()),
        }
    }
}

/// Interprets a list of events, from the first to the last.
pub fn interpret(events: &Vec<BuildEvent>) -> (read: Result<Metadata, StreamError>)
    ensures
        outcome(read) == interpreted(initial(), events.deep_view()),
{
    let mut metadata = Metadata::new();
    let mut at: usize = 0;
    let ghost all = events.deep_view();
    assert(all.skip(0) =~= all);
    while at < events.len()
        invariant
            at <= events.len(),
            all == events.deep_view(),
            interpreted(initial(), all) == interpreted(metadata@, all.skip(at as int)),
        decreases events.len() - at,
    {
        assert(all.skip(at as int)[0] == events@[at as int]@);
        assert(all.skip(at as int).drop_first() =~= all.skip(at + 1));
        match metadata.record(&events[at]) {
            Ok(()) => {},
            Err(error) => {
                return Err(error);
            },
        }
        at += 1;
    }
    Ok(metadata)
}

} // verus!
