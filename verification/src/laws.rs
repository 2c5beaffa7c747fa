use vstd::prelude::*;
use crate::clip::Clip;
use crate::clip::ClipboardKind;
use crate::model::Action;
use crate::model::Event;
use crate::model::LoopModel;
use crate::model::Phase;
use crate::options::lemma_watch_set;
use crate::options::ClipboardWatcherOptions;

verus! {

/// The clips that were read from `kind`.
pub open spec fn read_from(kind: ClipboardKind) -> spec_fn(Clip) -> bool {
    |clip: Clip| clip.kind == kind
}

/// A notification that a loop takes up: it announces a watched kind, and the
/// loop found the switch on.
pub open spec fn announces_change(opts: ClipboardWatcherOptions, event: Event) -> bool {
    event matches Event::Notified { next: Some(kind), watching } && watching && opts.watches(kind)
}

/// A notification that a loop discards: it announces a kind, and either the
/// loop found the switch off or the kind is not watched.
pub open spec fn is_discarded(opts: ClipboardWatcherOptions, event: Event) -> bool {
    event matches Event::Notified { next: Some(kind), watching } && !(watching && opts.watches(
        kind,
    ))
}

/// Every content that the loop gets over `events` while it waits for the
/// content of `kind`, and that passes the size filter, is `content`. Failed
/// loads and content that the filter rejects may come in between.
pub open spec fn answers_agree(
    model: LoopModel,
    events: Seq<Event>,
    kind: ClipboardKind,
    content: Seq<u8>,
) -> bool
    decreases events.len(),
{
    events.len() > 0 ==> {
        &&& answers_agree(model, events.drop_last(), kind, content)
        &&& model.run(events.drop_last()).awaited() == Some(kind) ==> (events.last() matches Event::Loaded {
            loaded: Ok(found),
            ..
        } ==> model.opts.qualifies(found) ==> found == content)
    }
}

/// No sequence of events changes the options of a loop: the watch set and
/// the size filter are fixed.
pub proof fn lemma_run_keeps_options(model: LoopModel, events: Seq<Event>)
    ensures
        model.run(events).opts == model.opts,
    decreases events.len(),
{
    if events.len() > 0 {
        lemma_run_keeps_options(model, events.drop_last());
    }
}

/// Every event leaves a consistent loop consistent, with the options and so
/// the watch set that it had. A consistent loop waits for the content of
/// watched kinds only.
pub proof fn lemma_event_keeps_loop_consistent(model: LoopModel, event: Event)
    requires
        model.wf(),
    ensures
        model.after(event).wf(),
        model.after(event).opts == model.opts,
        model.awaited() matches Some(kind) ==> model.opts.watches(kind),
{
    lemma_watch_set(model.opts);
    let set = model.opts.watch_set();
    if model.takes(event) {
        match event {
            Event::Loaded { loaded, delivered } => {
                match model.publication(loaded) {
                    Some(clip) => {
                        let recorded = model.recorded(clip);
                        assert(model.opts.watches(clip.kind));
                        match model.phase {
                            Phase::InitialLoad { index } => {
                                assert(set[index as int] == clip.kind);
                                assert forall|j: int| index + 1 <= j < set.len() implies !recorded.cache.contains_key(
                                    #[trigger] set[j],
                                ) by {
                                    assert(set[j] != set[index as int]);
                                }
                            },
                            _ => {},
                        }
                    },
                    None => {},
                }
            },
            _ => {},
        }
    }
}

/// Every sequence of events leaves a consistent loop consistent, with the
/// options that it had: the watch set is fixed, and the cache never holds
/// content that the size filter rejects.
pub proof fn lemma_run_keeps_loop_consistent(model: LoopModel, events: Seq<Event>)
    requires
        model.wf(),
    ensures
        model.run(events).wf(),
        model.run(events).opts == model.opts,
    decreases events.len(),
{
    if events.len() > 0 {
        lemma_run_keeps_loop_consistent(model, events.drop_last());
        lemma_event_keeps_loop_consistent(model.run(events.drop_last()), events.last());
    }
}

/// A run over two sequences of events, one after the other, is the run over
/// the second from where the first ends, and publishes what both publish.
pub proof fn lemma_run_in_two_parts(model: LoopModel, first: Seq<Event>, second: Seq<Event>)
    ensures
        model.run(first + second) == model.run(first).run(second),
        model.publications(first + second) == model.publications(first) + model.run(
            first,
        ).publications(second),
    decreases second.len(),
{
    if second.len() == 0 {
        assert(first + second =~= first);
        assert(model.publications(first) + Seq::<Clip>::empty() =~= model.publications(first));
    } else {
        assert((first + second).drop_last() =~= first + second.drop_last());
        assert((first + second).last() == second.last());
        lemma_run_in_two_parts(model, first, second.drop_last());
        let middle = model.run(first);
        let earlier = model.publications(first) + middle.publications(second.drop_last());
        match middle.run(second.drop_last()).published(second.last()) {
            Some(clip) => {
                assert(earlier.push(clip) =~= model.publications(first) + middle.publications(
                    second.drop_last(),
                ).push(clip));
            },
            None => {},
        }
    }
}

/// Content that is not longer than the size filter asks for is not
/// published, whatever the loop waits for and whatever was published before:
/// the loop goes on as if there had been no content, and its cache stays as
/// it is.
pub proof fn lemma_short_content_is_discarded(model: LoopModel, content: Seq<u8>, delivered: bool)
    requires
        content.len() <= model.opts.filter_min_size,
    ensures
        model.publication(Ok(content)) is None,
        model.on_loaded(Ok(content), delivered) == model.resumed(),
        model.on_loaded(Ok(content), delivered).0.cache == model.cache,
{
}

/// Over every sequence of events, every clip that a consistent loop
/// publishes is longer than the size filter asks for and was read from a
/// watched kind.
pub proof fn lemma_published_clips_pass_the_filter(model: LoopModel, events: Seq<Event>)
    requires
        model.wf(),
    ensures
        forall|i: int|
            0 <= i < model.publications(events).len() ==> {
                let clip = #[trigger] model.publications(events)[i];
                clip.content.len() > model.opts.filter_min_size && model.opts.watches(clip.kind)
            },
    decreases events.len(),
{
    if events.len() > 0 {
        let before = events.drop_last();
        lemma_published_clips_pass_the_filter(model, before);
        lemma_run_keeps_loop_consistent(model, before);
        lemma_event_keeps_loop_consistent(model.run(before), events.last());
    }
}

/// Where every content that is loaded for one kind and passes the size
/// filter is the same, that content is published at most once: by the first
/// such answer, where it is not what was published last. Every later answer
/// is suppressed, also where failed loads or content that the filter rejects
/// come in between. The content is published exactly where the cache comes
/// to hold it, and the cache holds it from then on.
pub proof fn lemma_same_content_is_published_once(
    model: LoopModel,
    events: Seq<Event>,
    kind: ClipboardKind,
    content: Seq<u8>,
)
    requires
        answers_agree(model, events, kind, content),
    ensures
        ({
            let clips = model.publications(events).filter(read_from(kind));
            let held_before = model.cache.contains_key(kind) && model.cache[kind] == content;
            let held_after = model.run(events).cache.contains_key(kind) && model.run(
                events,
            ).cache[kind] == content;
            &&& clips.len() <= 1
            &&& forall|i: int| 0 <= i < clips.len() ==> clips[i] == Clip { kind, content }
            &&& held_before ==> held_after
            &&& clips.len() == 1 <==> !held_before && held_after
        }),
    decreases events.len(),
{
    reveal(Seq::filter);
    if events.len() > 0 {
        let before = events.drop_last();
        let event = events.last();
        let middle = model.run(before);
        lemma_same_content_is_published_once(model, before, kind, content);
        lemma_run_keeps_options(model, before);
        let earlier = model.publications(before);
        match middle.published(event) {
            Some(clip) => {
                assert(earlier.push(clip).drop_last() =~= earlier);
                assert(earlier.push(clip).last() == clip);
            },
            None => {},
        }
    }
}

/// In a loop that waits for the content of a kind, content that passes the
/// size filter and is not what was published last for that kind is
/// published, and the same content is suppressed from then on, whether or
/// not the channel took it.
pub proof fn lemma_first_of_same_content_is_published(
    model: LoopModel,
    content: Seq<u8>,
    delivered: bool,
)
    requires
        model.awaited() is Some,
        model.opts.qualifies(content),
        model.is_new(model.awaited()->0, content),
    ensures
        model.publication(Ok(content)) == Some(Clip { kind: model.awaited()->0, content }),
        !model.on_loaded(Ok(content), delivered).0.is_new(model.awaited()->0, content),
{
}

/// A loop whose options ask for no first snapshot starts by waiting for a
/// notification, and publishes nothing before a notification that it takes
/// up, whatever the clipboards hold.
pub proof fn lemma_nothing_is_published_before_first_change(
    opts: ClipboardWatcherOptions,
    events: Seq<Event>,
)
    requires
        !opts.load_current,
        forall|i: int| 0 <= i < events.len() ==> !announces_change(opts, #[trigger] events[i]),
    ensures
        LoopModel::initial(opts).on_start() == (
            LoopModel::initial(opts).in_phase(Phase::Waiting),
            Action::Wait,
        ),
        LoopModel::initial(opts).run(events).awaited() is None,
        LoopModel::initial(opts).publications(events) == Seq::<Clip>::empty(),
    decreases events.len(),
{
    if events.len() > 0 {
        let before = events.drop_last();
        assert forall|i: int| 0 <= i < before.len() implies !announces_change(
            opts,
            #[trigger] before[i],
        ) by {
            assert(before[i] == events[i]);
        }
        lemma_nothing_is_published_before_first_change(opts, before);
        lemma_run_keeps_loop_consistent(LoopModel::initial(opts), before);
        assert(!announces_change(opts, events[events.len() - 1]));
    }
}

/// Notifications that a loop discards change nothing: the loop asks for no
/// load, publishes nothing and stays as it is, its cache included. A run that
/// begins with such notifications ends as the run without them, and
/// publishes the same.
pub proof fn lemma_discarded_notifications_change_nothing(
    model: LoopModel,
    discarded: Seq<Event>,
    events: Seq<Event>,
)
    requires
        forall|i: int| 0 <= i < discarded.len() ==> is_discarded(model.opts, #[trigger] discarded[i]),
    ensures
        model.run(discarded) == model,
        model.publications(discarded) == Seq::<Clip>::empty(),
        model.run(discarded + events) == model.run(events),
        model.publications(discarded + events) == model.publications(events),
    decreases discarded.len(),
{
    if discarded.len() > 0 {
        let before = discarded.drop_last();
        assert forall|i: int| 0 <= i < before.len() implies is_discarded(
            model.opts,
            #[trigger] before[i],
        ) by {
            assert(before[i] == discarded[i]);
        }
        lemma_discarded_notifications_change_nothing(model, before, events);
        assert(is_discarded(model.opts, discarded[discarded.len() - 1]));
    }
    lemma_run_in_two_parts(model, discarded, events);
    assert(Seq::<Clip>::empty() + model.publications(events) =~= model.publications(events));
}

/// While the switch is off, a notification makes a loop ask for no load and
/// publish nothing, and leaves the cache as it is: once the switch is on
/// again, the loop goes on as if the notification had not come.
pub proof fn lemma_notification_while_disabled_is_discarded(
    model: LoopModel,
    kind: ClipboardKind,
    events: Seq<Event>,
)
    ensures
        model.on_notification(Some(kind), false) == (model, Action::Wait),
        ({
            let notified = seq![Event::Notified { next: Some(kind), watching: false }];
            &&& model.run(notified + events) == model.run(events)
            &&& model.publications(notified + events) == model.publications(events)
        }),
{
    let notified = seq![Event::Notified { next: Some(kind), watching: false }];
    assert(is_discarded(model.opts, notified[0]));
    lemma_discarded_notifications_change_nothing(model, notified, events);
}

/// A notification for a kind outside the watch set makes a loop ask for no
/// load and publish nothing, whatever the position of the switch, and the
/// loop goes on as if the notification had not come.
pub proof fn lemma_notification_of_unwatched_kind_is_discarded(
    model: LoopModel,
    kind: ClipboardKind,
    watching: bool,
    events: Seq<Event>,
)
    requires
        !model.opts.watches(kind),
    ensures
        model.on_notification(Some(kind), watching) == (model, Action::Wait),
        ({
            let notified = seq![Event::Notified { next: Some(kind), watching }];
            &&& model.run(notified + events) == model.run(events)
            &&& model.publications(notified + events) == model.publications(events)
        }),
{
    let notified = seq![Event::Notified { next: Some(kind), watching }];
    assert(is_discarded(model.opts, notified[0]));
    lemma_discarded_notifications_change_nothing(model, notified, events);
}

} // verus!
