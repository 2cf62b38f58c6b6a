//! What holds of every run of the dispatch controller, stated over the
//! traces of [`crate::dispatch::trace`] and proved.
//!
//! The library decides which paths are examined and which installer
//! invocations are run. What an installer run does to the file system is the
//! installer's affair: a trace without a [`ActionView::Run`] is a run of the
//! tool in which no file was written.

use vstd::prelude::*;

use crate::args::OperationView;
use crate::dispatch::begin;
use crate::dispatch::classification;
use crate::dispatch::fits;
use crate::dispatch::install_into;
use crate::dispatch::step;
use crate::dispatch::trace;
use crate::dispatch::ActionView;
use crate::dispatch::Answer;
use crate::dispatch::DestinationClassification;
use crate::dispatch::JobView;
use crate::error::MimicErrorView;
use crate::error::UsageKind;
use crate::install::installer_args;
use crate::install::mimicked;
use crate::install::planned;
use crate::install::PERMISSION_MASK;
use crate::path::base_name;
use crate::path::joined;
use crate::path::law_base_name_is_plain;
use crate::path::law_joined_keeps_name;
use crate::system::InstallerOutcomeView;
use crate::system::Metadata;
use crate::system::ProbeView;

verus! {

/// The answer of a metadata query that found `metadata`.
pub open spec fn found(metadata: Metadata) -> Answer {
    Answer::Probe(ProbeView::Found(metadata))
}

/// The answer of an installer run that succeeded.
pub open spec fn succeeded() -> Answer {
    Answer::Outcome(InstallerOutcomeView::Success)
}

/// The one install of single-file mode.
pub open spec fn single_job(operation: OperationView) -> JobView {
    JobView { operation, directory: false, index: 0, target: operation.destination }
}

/// The install of the source at `index` in directory mode: its target is the
/// base filename of the source, put under the destination.
pub open spec fn directory_job(operation: OperationView, index: nat) -> JobView
    recommends
        index < operation.sources.len(),
        base_name(operation.sources[index as int]) is Some,
{
    JobView {
        operation,
        directory: true,
        index,
        target: joined(operation.destination, base_name(operation.sources[index as int])->0),
    }
}

/// The answers of a stretch of a directory install in which all goes well:
/// for each entry of `references`, the reference file is found with that
/// metadata and the installer then succeeds.
pub open spec fn smooth_answers(references: Seq<Metadata>) -> Seq<Answer>
    decreases references.len(),
{
    if references.len() == 0 {
        Seq::empty()
    } else {
        seq![found(references[0]), succeeded()] + smooth_answers(references.drop_first())
    }
}

/// The actions of such a stretch, which starts at the source at `from`: for
/// each source in turn, the query for its reference file and the invocation
/// that installs the source under its base filename with the metadata found.
pub open spec fn smooth_actions(
    operation: OperationView,
    from: nat,
    references: Seq<Metadata>,
) -> Seq<ActionView>
    decreases references.len(),
{
    if references.len() == 0 {
        Seq::empty()
    } else {
        let job = directory_job(operation, from);
        seq![
            ActionView::Examine(job),
            ActionView::Run(
                job,
                planned(job.source(), job.target, references[0], operation.verbose),
            ),
        ] + smooth_actions(operation, from + 1, references.drop_first())
    }
}

/// Once the operation is done, nothing more is asked for, whatever answers
/// are offered: every failure ends the whole invocation.
pub proof fn law_done_is_final(result: Result<(), MimicErrorView>, answers: Seq<Answer>)
    ensures
        trace(ActionView::Done(result), answers) == seq![ActionView::Done(result)],
{
}

/// After an action that got a fitting answer, the trace goes on from the
/// action that the answer leads to.
pub proof fn lemma_trace_unfolds(action: ActionView, answer: Answer, rest: Seq<Answer>)
    requires
        fits(action, answer),
    ensures
        trace(action, seq![answer] + rest) == seq![action] + trace(step(action, answer), rest),
{
    let answers = seq![answer] + rest;
    assert(answers[0] == answer);
    assert(answers.drop_first() =~= rest);
}

/// Mimicking the previous version: in a single-file install without a
/// reference file, the file examined for the install is the destination
/// itself, before the installer is run, and the installer is then told the
/// owner, the group and the permission bits found there.
pub proof fn law_destination_is_mimicked(
    operation: OperationView,
    destination: Metadata,
    previous: Metadata,
)
    requires
        operation.sources.len() == 1,
        operation.reference is None,
        !destination.is_dir,
    ensures
        single_job(operation).reference() == operation.destination,
        trace(begin(operation), seq![found(destination), found(previous), succeeded()]) == seq![
            ActionView::Classify(operation),
            ActionView::Examine(single_job(operation)),
            ActionView::Run(
                single_job(operation),
                planned(
                    operation.sources[0],
                    operation.destination,
                    previous,
                    operation.verbose,
                ),
            ),
            ActionView::Done(Ok(())),
        ],
        planned(operation.sources[0], operation.destination, previous, operation.verbose).args
            == installer_args(mimicked(previous), operation.sources[0], operation.destination),
{
    let job = single_job(operation);
    let run = ActionView::Run(
        job,
        planned(operation.sources[0], operation.destination, previous, operation.verbose),
    );
    lemma_trace_unfolds(begin(operation), found(destination), seq![found(previous), succeeded()]);
    lemma_trace_unfolds(ActionView::Examine(job), found(previous), seq![succeeded()]);
    lemma_trace_unfolds(run, succeeded(), Seq::empty());
    assert(seq![found(destination), found(previous), succeeded()] =~= seq![found(destination)]
        + seq![found(previous), succeeded()]);
    assert(seq![found(previous), succeeded()] =~= seq![found(previous)] + seq![succeeded()]);
    assert(seq![succeeded()] =~= seq![succeeded()] + Seq::<Answer>::empty());
}

/// An explicit reference file alone decides what is mimicked: in a
/// single-file install with the reference file `reference`, the file examined
/// for the install is that file, and the installer is told the metadata found
/// there, whatever the state of the destination was, missing or a file.
pub proof fn law_reference_is_mimicked(
    operation: OperationView,
    reference: Seq<char>,
    destination: ProbeView,
    found_reference: Metadata,
)
    requires
        operation.sources.len() == 1,
        operation.reference == Some(reference),
        classification(destination) == Ok::<DestinationClassification, Seq<char>>(
            DestinationClassification::Missing,
        ) || classification(destination) == Ok::<DestinationClassification, Seq<char>>(
            DestinationClassification::File,
        ),
    ensures
        single_job(operation).reference() == reference,
        trace(
            begin(operation),
            seq![Answer::Probe(destination), found(found_reference), succeeded()],
        ) == seq![
            ActionView::Classify(operation),
            ActionView::Examine(single_job(operation)),
            ActionView::Run(
                single_job(operation),
                planned(
                    operation.sources[0],
                    operation.destination,
                    found_reference,
                    operation.verbose,
                ),
            ),
            ActionView::Done(Ok(())),
        ],
        planned(
            operation.sources[0],
            operation.destination,
            found_reference,
            operation.verbose,
        ).args == installer_args(
            mimicked(found_reference),
            operation.sources[0],
            operation.destination,
        ),
{
    let job = single_job(operation);
    let run = ActionView::Run(
        job,
        planned(operation.sources[0], operation.destination, found_reference, operation.verbose),
    );
    lemma_trace_unfolds(
        begin(operation),
        Answer::Probe(destination),
        seq![found(found_reference), succeeded()],
    );
    lemma_trace_unfolds(ActionView::Examine(job), found(found_reference), seq![succeeded()]);
    lemma_trace_unfolds(run, succeeded(), Seq::empty());
    assert(seq![Answer::Probe(destination), found(found_reference), succeeded()] =~= seq![
        Answer::Probe(destination),
    ] + seq![found(found_reference), succeeded()]);
    assert(seq![found(found_reference), succeeded()] =~= seq![found(found_reference)]
        + seq![succeeded()]);
    assert(seq![succeeded()] =~= seq![succeeded()] + Seq::<Answer>::empty());
}

/// A stretch of a directory install in which all goes well. Let the sources
/// from `from` on, as many as `references` has entries, all have a base
/// filename. If for each of them the reference file is found and the
/// installer succeeds, then each is installed in turn under its base filename
/// in the destination, with the metadata found for it, and the install goes
/// on with the source after them.
pub proof fn law_directory_stretch(
    operation: OperationView,
    from: nat,
    references: Seq<Metadata>,
    rest: Seq<Answer>,
)
    requires
        from + references.len() <= operation.sources.len(),
        forall|i: int|
            from <= i < from + references.len() ==> base_name(
                #[trigger] operation.sources[i],
            ) is Some,
    ensures
        trace(install_into(operation, from), smooth_answers(references) + rest) == smooth_actions(
            operation,
            from,
            references,
        ) + trace(install_into(operation, from + references.len()), rest),
    decreases references.len(),
{
    if references.len() == 0 {
        assert(smooth_answers(references) + rest =~= rest);
        assert(smooth_actions(operation, from, references) + trace(
            install_into(operation, from),
            rest,
        ) =~= trace(install_into(operation, from), rest));
    } else {
        let job = directory_job(operation, from);
        let invocation = planned(job.source(), job.target, references[0], operation.verbose);
        let later = references.drop_first();
        let tail = smooth_answers(later) + rest;
        assert(base_name(operation.sources[from as int]) is Some);
        assert(install_into(operation, from) == ActionView::Examine(job));
        assert(smooth_answers(references) + rest =~= seq![found(references[0])] + (seq![
            succeeded(),
        ] + tail));
        lemma_trace_unfolds(
            ActionView::Examine(job),
            found(references[0]),
            seq![succeeded()] + tail,
        );
        lemma_trace_unfolds(ActionView::Run(job, invocation), succeeded(), tail);
        assert forall|i: int| from + 1 <= i < from + 1 + later.len() implies base_name(
            #[trigger] operation.sources[i],
        ) is Some by {}
        law_directory_stretch(operation, from + 1, later, rest);
        assert(from + 1 + later.len() == from + references.len());
        assert(trace(install_into(operation, from), smooth_answers(references) + rest) =~= seq![
            ActionView::Examine(job),
            ActionView::Run(job, invocation),
        ] + smooth_actions(operation, from + 1, later) + trace(
            install_into(operation, from + references.len()),
            rest,
        ));
    }
}

/// In a directory install every source has the same reference file, the one
/// that was given. Without one, the file examined for a source is its own
/// target in the directory.
pub proof fn law_directory_reference(operation: OperationView, index: nat)
    requires
        index < operation.sources.len(),
        base_name(operation.sources[index as int]) is Some,
    ensures
        install_into(operation, index) == ActionView::Examine(directory_job(operation, index)),
        directory_job(operation, index).reference() == match operation.reference {
            Some(reference) => reference,
            None => joined(
                operation.destination,
                base_name(operation.sources[index as int])->0,
            ),
        },
{
}

/// In a directory install each source goes into the directory under its own
/// base filename: its target begins with the destination and has the base
/// filename of the source.
pub proof fn law_directory_target_keeps_name(operation: OperationView, index: nat)
    requires
        index < operation.sources.len(),
        base_name(operation.sources[index as int]) is Some,
    ensures
        operation.destination.is_prefix_of(directory_job(operation, index).target),
        base_name(directory_job(operation, index).target) == base_name(
            operation.sources[index as int],
        ),
{
    let name = base_name(operation.sources[index as int])->0;
    law_base_name_is_plain(operation.sources[index as int]);
    law_joined_keeps_name(operation.destination, name);
}

/// A directory install in which all goes well installs every source. If the
/// destination is a directory, every source has a base filename, and for each
/// source the reference file is found and the installer succeeds, then after
/// the query for the destination each source in turn is installed under its
/// base filename in the destination with the metadata found for it, and the
/// operation succeeds.
pub proof fn law_directory_installs_all(
    operation: OperationView,
    directory: Metadata,
    references: Seq<Metadata>,
)
    requires
        directory.is_dir,
        references.len() == operation.sources.len(),
        forall|i: int|
            0 <= i < operation.sources.len() ==> base_name(#[trigger] operation.sources[i])
                is Some,
    ensures
        trace(begin(operation), seq![found(directory)] + smooth_answers(references)) == seq![
            ActionView::Classify(operation),
        ] + smooth_actions(operation, 0, references) + seq![ActionView::Done(Ok(()))],
{
    lemma_trace_unfolds(begin(operation), found(directory), smooth_answers(references));
    law_directory_stretch(operation, 0, references, Seq::empty());
    assert(smooth_answers(references) + Seq::<Answer>::empty() =~= smooth_answers(references));
}

/// A missing destination without a reference file is a usage error, and no
/// installer is run: the trace ends with the error right after the query for
/// the destination.
pub proof fn law_missing_destination_needs_reference(
    operation: OperationView,
    cause: Seq<char>,
    rest: Seq<Answer>,
)
    requires
        operation.reference is None,
    ensures
        trace(begin(operation), seq![Answer::Probe(ProbeView::NotFound { cause })] + rest) == seq![
            ActionView::Classify(operation),
            ActionView::Done(Err(MimicErrorView::Usage(UsageKind::DestinationMissing))),
        ],
{
    lemma_trace_unfolds(begin(operation), Answer::Probe(ProbeView::NotFound { cause }), rest);
}

/// Several sources need a directory: if the destination exists and is not a
/// directory and there is more than one source, this is a usage error, and no
/// installer is run.
pub proof fn law_several_sources_need_directory(
    operation: OperationView,
    destination: Metadata,
    rest: Seq<Answer>,
)
    requires
        operation.sources.len() > 1,
        !destination.is_dir,
    ensures
        trace(begin(operation), seq![found(destination)] + rest) == seq![
            ActionView::Classify(operation),
            ActionView::Done(Err(MimicErrorView::Usage(UsageKind::NotADirectory))),
        ],
{
    lemma_trace_unfolds(begin(operation), found(destination), rest);
}

/// A source without a base filename ends a directory install with an error
/// for that source. The sources before it, `bad` in number, were installed
/// before the error came up, and nothing is run after it.
pub proof fn law_invalid_source_ends_batch(
    operation: OperationView,
    directory: Metadata,
    bad: nat,
    references: Seq<Metadata>,
    rest: Seq<Answer>,
)
    requires
        directory.is_dir,
        bad < operation.sources.len(),
        references.len() == bad,
        forall|i: int| 0 <= i < bad ==> base_name(#[trigger] operation.sources[i]) is Some,
        base_name(operation.sources[bad as int]) is None,
    ensures
        trace(begin(operation), seq![found(directory)] + smooth_answers(references) + rest)
            == seq![ActionView::Classify(operation)] + smooth_actions(operation, 0, references)
            + seq![
            ActionView::Done(
                Err(MimicErrorView::InvalidPath { source: operation.sources[bad as int] }),
            ),
        ],
{
    assert(seq![found(directory)] + smooth_answers(references) + rest =~= seq![found(directory)]
        + (smooth_answers(references) + rest));
    lemma_trace_unfolds(begin(operation), found(directory), smooth_answers(references) + rest);
    law_directory_stretch(operation, 0, references, rest);
}

/// A failure is fatal at once: when the installer fails for one source of a
/// directory install, or cannot be launched, the operation ends with the
/// error that names that source and its target. The sources before it stay
/// installed, and those after it are not attempted.
pub proof fn law_failed_run_ends_batch(
    operation: OperationView,
    directory: Metadata,
    failing: nat,
    references: Seq<Metadata>,
    reference: Metadata,
    outcome: InstallerOutcomeView,
    rest: Seq<Answer>,
)
    requires
        directory.is_dir,
        failing < operation.sources.len(),
        references.len() == failing,
        forall|i: int| 0 <= i <= failing ==> base_name(#[trigger] operation.sources[i]) is Some,
        outcome != InstallerOutcomeView::Success,
    ensures
        trace(
            begin(operation),
            seq![found(directory)] + smooth_answers(references) + seq![
                found(reference),
                Answer::Outcome(outcome),
            ] + rest,
        ) == seq![ActionView::Classify(operation)] + smooth_actions(operation, 0, references)
            + seq![
            ActionView::Examine(directory_job(operation, failing)),
            ActionView::Run(
                directory_job(operation, failing),
                planned(
                    operation.sources[failing as int],
                    directory_job(operation, failing).target,
                    reference,
                    operation.verbose,
                ),
            ),
            ActionView::Done(
                Err(
                    MimicErrorView::Install {
                        source: operation.sources[failing as int],
                        destination: directory_job(operation, failing).target,
                        launch: match outcome {
                            InstallerOutcomeView::NotLaunched { cause } => Some(cause),
                            _ => None,
                        },
                    },
                ),
            ),
        ],
{
    let job = directory_job(operation, failing);
    let invocation = planned(job.source(), job.target, reference, operation.verbose);
    let last = seq![found(reference), Answer::Outcome(outcome)] + rest;
    assert(seq![found(directory)] + smooth_answers(references) + seq![
        found(reference),
        Answer::Outcome(outcome),
    ] + rest =~= seq![found(directory)] + (smooth_answers(references) + last));
    lemma_trace_unfolds(begin(operation), found(directory), smooth_answers(references) + last);
    law_directory_stretch(operation, 0, references, last);
    assert(last =~= seq![found(reference)] + (seq![Answer::Outcome(outcome)] + rest));
    lemma_trace_unfolds(
        ActionView::Examine(job),
        found(reference),
        seq![Answer::Outcome(outcome)] + rest,
    );
    lemma_trace_unfolds(ActionView::Run(job, invocation), Answer::Outcome(outcome), rest);
}

/// What is mimicked does not depend on the file type bits of the reference
/// file: metadata with the same owner, the same group and the same low 12
/// bits of the mode word give the same invocation.
pub proof fn law_invocation_depends_on_mimicked(
    source: Seq<char>,
    destination: Seq<char>,
    first: Metadata,
    second: Metadata,
    verbose: bool,
)
    requires
        mimicked(first) == mimicked(second),
    ensures
        planned(source, destination, first, verbose) == planned(
            source,
            destination,
            second,
            verbose,
        ),
{
}

/// Installing twice gives the same result. Let a single-file install without
/// a reference file have succeeded, so that the destination now has the
/// owner, the group and the permission bits that the installer was told:
/// those of `previous`. If the same install is made again, the destination
/// is examined as it is then, `installed`, and the installer is run exactly
/// as the first time.
pub proof fn law_repeated_install_is_same(
    operation: OperationView,
    destination: Metadata,
    previous: Metadata,
    installed: Metadata,
)
    requires
        operation.sources.len() == 1,
        operation.reference is None,
        !destination.is_dir,
        !installed.is_dir,
        installed.uid == mimicked(previous).owner,
        installed.gid == mimicked(previous).group,
        installed.mode & PERMISSION_MASK == mimicked(previous).permissions,
    ensures
        mimicked(installed) == mimicked(previous),
        trace(begin(operation), seq![found(installed), found(installed), succeeded()]) == trace(
            begin(operation),
            seq![found(destination), found(previous), succeeded()],
        ),
{
    law_destination_is_mimicked(operation, destination, previous);
    law_destination_is_mimicked(operation, installed, installed);
    law_invocation_depends_on_mimicked(
        operation.sources[0],
        operation.destination,
        previous,
        installed,
        operation.verbose,
    );
}

/// The permission bits that are mimicked fit in 12 bits, and mimicking them
/// again changes nothing.
pub proof fn law_permissions_are_twelve_bits(metadata: Metadata)
    ensures
        mimicked(metadata).wf(),
        mimicked(metadata).permissions & PERMISSION_MASK == mimicked(
            metadata,
        ).permissions,
{
    let mode = metadata.mode;
    assert(mode & 0o7777 <= 0o7777 && (mode & 0o7777) & 0o7777 == mode & 0o7777) by (bit_vector);
}

} // verus!
