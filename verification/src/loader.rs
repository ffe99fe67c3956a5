//! Construction of an audio module from remote assets, as a protocol of
//! steps: the loader names the next thing to fetch, parse or build, the
//! caller does it and reports how it went.

use vstd::prelude::*;

use crate::bundle::Bundle;
use crate::command::Command;
use crate::module::{text_of, AAModule};
use crate::utils::{join, join_with_slash};

verus! {

/// What the loader is waiting for.
#[derive(Clone, Copy, Debug, PartialEq, Eq, Structural)]
pub enum Phase {
    /// The text of the manifest.
    Manifest,
    /// The manifest parsed from its text.
    Parse,
    /// The bytes of the next binary.
    Binaries,
    /// The engine built from the binaries.
    Engine,
    /// The text of the GUI's description.
    GuiDescription,
    /// Nothing: construction has ended, in a module or in failure.
    Closed,
}

/// How the step that the loader asked for went.
#[derive(Debug)]
pub enum LoadEvent {
    /// A text fetch: the text, or nothing where the fetch failed.
    Text(Option<String>),
    /// The parse of the manifest: the manifest, or nothing where the text
    /// is malformed.
    Manifest(Option<Bundle>),
    /// A byte fetch: the bytes, or nothing where the fetch failed.
    Binary(Option<Vec<u8>>),
    /// The making of the engine: whether there is one now.
    Engine(bool),
}

/// What the loader asks for next, or how construction ended.
#[derive(Debug)]
pub enum LoadAction {
    /// Fetch the text at this address.
    FetchText(String),
    /// Parse this text as a manifest.
    Parse(String),
    /// Fetch the bytes at this address.
    FetchBinary(String),
    /// Build the engine from these binaries, in this order.
    BuildEngine(Vec<Vec<u8>>),
    /// Construction is done: the module that goes with the engine.
    Ready(AAModule),
    /// Construction failed; nothing is kept.
    Fail,
}

/// The texts of `strings`, in order.
pub open spec fn texts(strings: Seq<String>) -> Seq<Seq<char>> {
    strings.map_values(|text: String| text@)
}

/// The contents of `blobs`, in order.
pub open spec fn contents(blobs: Seq<Vec<u8>>) -> Seq<Seq<u8>> {
    blobs.map_values(|blob: Vec<u8>| blob@)
}

/// A loader's state as plain values.
pub struct LoaderView {
    pub phase: Phase,
    /// The base location that every address starts with.
    pub base: Seq<char>,
    /// The declared binaries, in declaration order.
    pub wasm_urls: Seq<Seq<char>>,
    /// The binaries fetched so far, in declaration order.
    pub binaries: Seq<Seq<u8>>,
    /// Where the GUI's description lies, if the manifest names one.
    pub gui_description: Option<Seq<char>>,
}

/// An action as plain values.
pub enum LoadActionView {
    FetchText(Seq<char>),
    Parse(Seq<char>),
    FetchBinary(Seq<char>),
    BuildEngine(Seq<Seq<u8>>),
    Ready { pending: Seq<Command>, gui_description: Option<Seq<char>> },
    Fail,
}

impl View for LoadAction {
    type V = LoadActionView;

    open spec fn view(&self) -> LoadActionView {
        match self {
            LoadAction::FetchText(url) => LoadActionView::FetchText(url@),
            LoadAction::Parse(json) => LoadActionView::Parse(json@),
            LoadAction::FetchBinary(url) => LoadActionView::FetchBinary(url@),
            LoadAction::BuildEngine(binaries) => LoadActionView::BuildEngine(contents(binaries@)),
            LoadAction::Ready(module) => LoadActionView::Ready {
                pending: module.pending(),
                gui_description: module.gui_description(),
            },
            LoadAction::Fail => LoadActionView::Fail,
        }
    }
}

/// What the loader reads of a manifest.
pub struct ManifestView {
    /// The declared binaries, in declaration order.
    pub wasm_urls: Seq<Seq<char>>,
    /// Where the GUI's description lies, if the manifest names one.
    pub gui_description: Option<Seq<char>>,
}

/// What the loader reads of the manifest that `event` brought, where it
/// brought one.
pub open spec fn manifest_of(event: LoadEvent) -> ManifestView {
    match event {
        LoadEvent::Manifest(Some(bundle)) => ManifestView {
            wasm_urls: texts(bundle.wasm_url@),
            gui_description: text_of(bundle.gui_description),
        },
        _ => ManifestView { wasm_urls: Seq::empty(), gui_description: None },
    }
}

/// The state of a loader that holds nothing any more.
pub open spec fn closed() -> LoaderView {
    LoaderView {
        phase: Phase::Closed,
        base: Seq::empty(),
        wasm_urls: Seq::empty(),
        binaries: Seq::empty(),
        gui_description: None,
    }
}

/// The state in which construction starts, and its first action: the fetch
/// of the manifest at `url`, a slash, `module`.
pub open spec fn start(url: Seq<char>, module: Seq<char>) -> (LoaderView, LoadActionView) {
    (
        LoaderView {
            phase: Phase::Manifest,
            base: url,
            wasm_urls: Seq::empty(),
            binaries: Seq::empty(),
            gui_description: None,
        },
        LoadActionView::FetchText(url + "/"@ + module),
    )
}

/// With the manifest known: the fetch of the first binary not fetched yet,
/// at the base location followed directly by the binary's path; or, with
/// none left, the building of the engine from all of them.
pub open spec fn next_binary(s: LoaderView) -> (LoaderView, LoadActionView) {
    if s.binaries.len() < s.wasm_urls.len() {
        (
            LoaderView { phase: Phase::Binaries, ..s },
            LoadActionView::FetchBinary(s.base + s.wasm_urls[s.binaries.len() as int]),
        )
    } else {
        (
            LoaderView { phase: Phase::Engine, binaries: Seq::empty(), ..s },
            LoadActionView::BuildEngine(s.binaries),
        )
    }
}

/// One step of construction: the state and the action that follow when
/// `event` arrives in state `s`. An event that reports a failure, or that
/// does not answer what the loader asked for, ends construction in `Fail`;
/// only the fetch of the GUI's description may fail without harm.
pub open spec fn step(s: LoaderView, event: LoadEvent) -> (LoaderView, LoadActionView) {
    match (s.phase, event) {
        (Phase::Manifest, LoadEvent::Text(Some(json))) => (
            LoaderView { phase: Phase::Parse, ..s },
            LoadActionView::Parse(json@),
        ),
        (Phase::Parse, LoadEvent::Manifest(Some(bundle))) => next_binary(
            LoaderView {
                wasm_urls: texts(bundle.wasm_url@),
                gui_description: text_of(bundle.gui_description),
                ..s
            },
        ),
        (Phase::Binaries, LoadEvent::Binary(Some(bytes))) => next_binary(
            LoaderView { binaries: s.binaries.push(bytes@), ..s },
        ),
        (Phase::Engine, LoadEvent::Engine(true)) => match s.gui_description {
            Some(path) => (
                LoaderView { phase: Phase::GuiDescription, ..s },
                LoadActionView::FetchText(s.base + "/"@ + path),
            ),
            None => (
                closed(),
                LoadActionView::Ready { pending: Seq::empty(), gui_description: None },
            ),
        },
        (Phase::GuiDescription, LoadEvent::Text(text)) => (
            closed(),
            LoadActionView::Ready { pending: Seq::empty(), gui_description: text_of(text) },
        ),
        _ => (closed(), LoadActionView::Fail),
    }
}

/// `event` reports a byte fetch that brought its bytes.
pub open spec fn brought_binary(event: LoadEvent) -> bool {
    event matches LoadEvent::Binary(Some(_))
}

/// The actions that the loader answers with when `events` arrive one after
/// another, the first of them in state `s`.
pub open spec fn run(s: LoaderView, events: Seq<LoadEvent>) -> Seq<LoadActionView>
    decreases events.len(),
{
    if events.len() == 0 {
        Seq::empty()
    } else {
        seq![step(s, events.first()).1] + run(step(s, events.first()).0, events.drop_first())
    }
}

/// The state that the loader is in after `events` arrived one after another,
/// the first of them in state `s`.
pub open spec fn end_state(s: LoaderView, events: Seq<LoadEvent>) -> LoaderView
    decreases events.len(),
{
    if events.len() == 0 {
        s
    } else {
        end_state(step(s, events.first()).0, events.drop_first())
    }
}

/// A loader that holds nothing answers every event with `Fail` and goes on
/// holding nothing.
pub proof fn lemma_closed_stays_closed(events: Seq<LoadEvent>)
    ensures
        run(closed(), events).len() == events.len(),
        forall|i: int| 0 <= i < events.len() ==> run(closed(), events)[i] == LoadActionView::Fail,
        end_state(closed(), events) == closed(),
    decreases events.len(),
{
    if events.len() > 0 {
        assert(step(closed(), events.first()) == (closed(), LoadActionView::Fail));
        lemma_closed_stays_closed(events.drop_first());
    }
}

/// While binaries are being fetched: where `k` fetches succeed and the next
/// one fails with binaries still to come, the loader asks for one binary
/// after another, then fails, and holds nothing from then on.
proof fn lemma_failed_binary(s: LoaderView, events: Seq<LoadEvent>, k: int)
    requires
        s.phase == Phase::Binaries,
        0 <= k < events.len(),
        s.binaries.len() + k < s.wasm_urls.len(),
        forall|j: int| 0 <= j < k ==> brought_binary(#[trigger] events[j]),
        events[k] matches LoadEvent::Binary(None),
    ensures
        run(s, events).len() == events.len(),
        forall|i: int|
            0 <= i < k ==> run(s, events)[i] == LoadActionView::FetchBinary(
                s.base + s.wasm_urls[s.binaries.len() + i + 1],
            ),
        forall|i: int| k <= i < events.len() ==> run(s, events)[i] == LoadActionView::Fail,
        end_state(s, events) == closed(),
    decreases k,
{
    let rest = events.drop_first();
    if k == 0 {
        assert(step(s, events.first()) == (closed(), LoadActionView::Fail));
        lemma_closed_stays_closed(rest);
    } else {
        assert(brought_binary(events[0]));
        let next = step(s, events.first()).0;
        assert(next.phase == Phase::Binaries);
        assert(next.binaries.len() == s.binaries.len() + 1);
        assert(next.wasm_urls == s.wasm_urls);
        assert(next.base == s.base);
        assert forall|j: int| 0 <= j < k - 1 implies brought_binary(#[trigger] rest[j]) by {
            assert(rest[j] == events[j + 1]);
        }
        assert(rest[k - 1] == events[k]);
        lemma_failed_binary(next, rest, k - 1);
        assert forall|i: int| 0 <= i < k implies run(s, events)[i] == LoadActionView::FetchBinary(
            s.base + s.wasm_urls[s.binaries.len() + i + 1],
        ) by {
            if i > 0 {
                assert(run(s, events)[i] == run(next, rest)[i - 1]);
            }
        }
        assert forall|i: int| k <= i < events.len() implies run(s, events)[i]
            == LoadActionView::Fail by {
            assert(run(s, events)[i] == run(next, rest)[i - 1]);
        }
    }
}

/// Where the manifest cannot be fetched, construction fails at once and
/// stays failed: the loader asks for no binary and no engine, hands out no
/// module, and holds nothing.
pub proof fn law_unreachable_manifest_fails(
    url: Seq<char>,
    module: Seq<char>,
    events: Seq<LoadEvent>,
)
    requires
        events.len() > 0,
        events[0] matches LoadEvent::Text(None),
    ensures
        run(start(url, module).0, events).len() == events.len(),
        forall|i: int|
            0 <= i < events.len() ==> run(start(url, module).0, events)[i] == LoadActionView::Fail,
        end_state(start(url, module).0, events) == closed(),
{
    let s = start(url, module).0;
    assert(step(s, events.first()) == (closed(), LoadActionView::Fail));
    lemma_closed_stays_closed(events.drop_first());
    assert forall|i: int| 0 <= i < events.len() implies run(s, events)[i]
        == LoadActionView::Fail by {
        if i > 0 {
            assert(run(s, events)[i] == run(closed(), events.drop_first())[i - 1]);
        }
    }
}

/// Where the text of the manifest is malformed, construction fails before
/// any binary is asked for: after the request to parse the text the loader
/// answers with nothing but `Fail`, and holds nothing.
pub proof fn law_malformed_manifest_fetches_no_binary(
    url: Seq<char>,
    module: Seq<char>,
    events: Seq<LoadEvent>,
)
    requires
        events.len() >= 2,
        events[0] matches LoadEvent::Text(Some(_)),
        events[1] matches LoadEvent::Manifest(None),
    ensures
        run(start(url, module).0, events).len() == events.len(),
        run(start(url, module).0, events)[0] is Parse,
        forall|i: int|
            1 <= i < events.len() ==> run(start(url, module).0, events)[i] == LoadActionView::Fail,
        forall|i: int|
            0 <= i < events.len() ==> !(run(start(url, module).0, events)[i] is FetchBinary),
        end_state(start(url, module).0, events) == closed(),
{
    let s = start(url, module).0;
    let parsing = step(s, events[0]).0;
    let rest = events.drop_first();
    assert(parsing.phase == Phase::Parse);
    assert(rest[0] == events[1]);
    assert(step(parsing, rest.first()) == (closed(), LoadActionView::Fail));
    lemma_closed_stays_closed(rest.drop_first());
    assert(run(s, events) == seq![step(s, events.first()).1] + run(parsing, rest));
    assert(run(parsing, rest) == seq![LoadActionView::Fail] + run(closed(), rest.drop_first()));
    assert(end_state(s, events) == end_state(parsing, rest));
    assert(end_state(parsing, rest) == end_state(closed(), rest.drop_first()));
    assert forall|i: int| 1 <= i < events.len() implies run(s, events)[i]
        == LoadActionView::Fail by {
        assert(run(s, events)[i] == run(parsing, rest)[i - 1]);
        if i > 1 {
            assert(run(parsing, rest)[i - 1] == run(closed(), rest.drop_first())[i - 2]);
        }
    }
}

/// Where the manifest declares binaries and the fetch of one of them fails,
/// the earlier ones having arrived, the whole construction fails: the loader
/// never asks for the engine and never hands out a module, answers the
/// failed fetch and all that follows with `Fail`, and keeps none of the
/// bytes that had arrived.
pub proof fn law_unreachable_binary_builds_no_engine(
    url: Seq<char>,
    module: Seq<char>,
    events: Seq<LoadEvent>,
    k: int,
)
    requires
        0 <= k,
        k + 2 < events.len(),
        events[0] matches LoadEvent::Text(Some(_)),
        events[1] matches LoadEvent::Manifest(Some(bundle)) && k < bundle.wasm_url@.len(),
        forall|j: int| 2 <= j < k + 2 ==> brought_binary(#[trigger] events[j]),
        events[k + 2] matches LoadEvent::Binary(None),
    ensures
        run(start(url, module).0, events).len() == events.len(),
        forall|i: int|
            0 <= i < events.len() ==> !(run(start(url, module).0, events)[i] is BuildEngine) && !(
            run(start(url, module).0, events)[i] is Ready),
        forall|i: int|
            k + 2 <= i < events.len() ==> run(start(url, module).0, events)[i]
                == LoadActionView::Fail,
        end_state(start(url, module).0, events) == closed(),
{
    let s = start(url, module).0;
    let parsing = step(s, events[0]).0;
    let rest = events.drop_first();
    assert(parsing.phase == Phase::Parse);
    assert(parsing.binaries.len() == 0);
    assert(rest[0] == events[1]);
    let fetching = step(parsing, rest.first()).0;
    let binaries = rest.drop_first();
    assert(fetching.phase == Phase::Binaries);
    assert(fetching.binaries.len() == 0);
    assert forall|j: int| 0 <= j < k implies brought_binary(#[trigger] binaries[j]) by {
        assert(binaries[j] == events[j + 2]);
    }
    assert(binaries[k] == events[k + 2]);
    lemma_failed_binary(fetching, binaries, k);
    assert(run(s, events) == seq![step(s, events.first()).1] + run(parsing, rest));
    assert(run(parsing, rest) == seq![step(parsing, rest.first()).1] + run(fetching, binaries));
    assert(end_state(s, events) == end_state(parsing, rest));
    assert(end_state(parsing, rest) == end_state(fetching, binaries));
    assert(step(s, events.first()).1 is Parse);
    assert(step(parsing, rest.first()).1 is FetchBinary);
    assert forall|i: int| 0 <= i < events.len() implies !(run(s, events)[i] is BuildEngine) && !(
    run(s, events)[i] is Ready) && (k + 2 <= i ==> run(s, events)[i] == LoadActionView::Fail) by {
        if i > 0 {
            assert(run(s, events)[i] == run(parsing, rest)[i - 1]);
            if i > 1 {
                assert(run(parsing, rest)[i - 1] == run(fetching, binaries)[i - 2]);
            }
        }
    }
}

/// The bytes that `event` brought, where it reports a byte fetch that
/// brought any.
pub open spec fn binary_of(event: LoadEvent) -> Seq<u8> {
    match event {
        LoadEvent::Binary(Some(bytes)) => bytes@,
        _ => Seq::empty(),
    }
}

/// While binaries are being fetched: where as many fetches succeed as
/// binaries are still to come, the loader asks for one binary after another
/// and then for the engine, built from all the bytes in the order of arrival.
proof fn lemma_every_binary(s: LoaderView, events: Seq<LoadEvent>)
    requires
        s.phase == Phase::Binaries,
        events.len() >= 1,
        s.binaries.len() + events.len() == s.wasm_urls.len(),
        forall|j: int| 0 <= j < events.len() ==> brought_binary(#[trigger] events[j]),
    ensures
        run(s, events).len() == events.len(),
        forall|i: int|
            0 <= i < events.len() - 1 ==> run(s, events)[i] == LoadActionView::FetchBinary(
                s.base + s.wasm_urls[s.binaries.len() + i + 1],
            ),
        run(s, events).last() == LoadActionView::BuildEngine(
            s.binaries + Seq::new(events.len(), |j: int| binary_of(events[j])),
        ),
        end_state(s, events) == (LoaderView { phase: Phase::Engine, binaries: Seq::empty(), ..s }),
    decreases events.len(),
{
    let rest = events.drop_first();
    let next = step(s, events.first()).0;
    let arrived = Seq::new(events.len(), |j: int| binary_of(events[j]));
    assert(brought_binary(events[0]));
    if events.len() == 1 {
        assert(run(next, rest) == Seq::<LoadActionView>::empty());
        assert(end_state(next, rest) == next);
        assert(s.binaries.push(binary_of(events[0])) =~= s.binaries + arrived);
    } else {
        assert forall|j: int| 0 <= j < rest.len() implies brought_binary(#[trigger] rest[j]) by {
            assert(rest[j] == events[j + 1]);
        }
        lemma_every_binary(next, rest);
        assert forall|i: int| 0 <= i < events.len() - 1 implies run(s, events)[i]
            == LoadActionView::FetchBinary(s.base + s.wasm_urls[s.binaries.len() + i + 1]) by {
            if i > 0 {
                assert(run(s, events)[i] == run(next, rest)[i - 1]);
            }
        }
        assert(run(s, events).last() == run(next, rest).last());
        assert(next.binaries + Seq::new(rest.len(), |j: int| binary_of(rest[j])) =~= s.binaries
            + arrived) by {
            assert forall|j: int| 0 <= j < rest.len() implies binary_of(rest[j]) == binary_of(
                events[j + 1],
            ) by {
                assert(rest[j] == events[j + 1]);
            }
        }
    }
}

/// Where the manifest arrives and parses and every declared binary is
/// fetched, the loader asks for the binaries one by one, each at the base
/// location followed directly by its declared path, in declaration order,
/// and only then for the engine, built from exactly the bytes that arrived,
/// in that order.
pub proof fn law_engine_gets_every_binary_in_order(
    url: Seq<char>,
    module: Seq<char>,
    events: Seq<LoadEvent>,
)
    requires
        events.len() >= 2,
        events[0] matches LoadEvent::Text(Some(_)),
        events[1] matches LoadEvent::Manifest(Some(bundle)) && events.len() == bundle.wasm_url@.len()
            + 2,
        forall|j: int| 2 <= j < events.len() ==> brought_binary(#[trigger] events[j]),
    ensures
        run(start(url, module).0, events).len() == events.len(),
        run(start(url, module).0, events)[0] is Parse,
        forall|i: int|
            1 <= i < events.len() - 1 ==> run(start(url, module).0, events)[i]
                == LoadActionView::FetchBinary(url + manifest_of(events[1]).wasm_urls[i - 1]),
        run(start(url, module).0, events).last() == LoadActionView::BuildEngine(
            Seq::new((events.len() - 2) as nat, |j: int| binary_of(events[j + 2])),
        ),
        end_state(start(url, module).0, events).phase == Phase::Engine,
{
    let s = start(url, module).0;
    let parsing = step(s, events[0]).0;
    let rest = events.drop_first();
    assert(rest[0] == events[1]);
    let fetching = step(parsing, rest.first()).0;
    let binaries = rest.drop_first();
    let arrived = Seq::new((events.len() - 2) as nat, |j: int| binary_of(events[j + 2]));
    assert(run(s, events) == seq![step(s, events.first()).1] + run(parsing, rest));
    assert(run(parsing, rest) == seq![step(parsing, rest.first()).1] + run(fetching, binaries));
    assert(end_state(s, events) == end_state(parsing, rest));
    assert(end_state(parsing, rest) == end_state(fetching, binaries));
    assert(step(s, events.first()).1 is Parse);
    if events.len() == 2 {
        assert(run(fetching, binaries) == Seq::<LoadActionView>::empty());
        assert(arrived =~= Seq::<Seq<u8>>::empty());
    } else {
        assert(fetching.phase == Phase::Binaries);
        assert(fetching.binaries == Seq::<Seq<u8>>::empty());
        assert forall|j: int| 0 <= j < binaries.len() implies brought_binary(
            #[trigger] binaries[j],
        ) by {
            assert(binaries[j] == events[j + 2]);
        }
        lemma_every_binary(fetching, binaries);
        assert(fetching.binaries + Seq::new(binaries.len(), |j: int| binary_of(binaries[j]))
            =~= arrived) by {
            assert forall|j: int| 0 <= j < binaries.len() implies binary_of(binaries[j])
                == binary_of(events[j + 2]) by {
                assert(binaries[j] == events[j + 2]);
            }
        }
        assert(run(s, events).last() == run(fetching, binaries).last());
        assert forall|i: int| 1 <= i < events.len() - 1 implies run(s, events)[i]
            == LoadActionView::FetchBinary(url + manifest_of(events[1]).wasm_urls[i - 1]) by {
            assert(run(s, events)[i] == run(parsing, rest)[i - 1]);
            if i > 1 {
                assert(run(parsing, rest)[i - 1] == run(fetching, binaries)[i - 2]);
            }
        }
    }
}

/// The construction of one module, under way.
#[derive(Debug)]
pub struct Loader {
    phase: Phase,
    base: String,
    wasm_urls: Vec<String>,
    binaries: Vec<Vec<u8>>,
    gui_description: Option<String>,
}

impl View for Loader {
    type V = LoaderView;

    closed spec fn view(&self) -> LoaderView {
        LoaderView {
            phase: self.phase,
            base: self.base@,
            wasm_urls: texts(self.wasm_urls@),
            binaries: contents(self.binaries@),
            gui_description: text_of(self.gui_description),
        }
    }
}

impl Loader {
    /// A loader that holds nothing.
    fn shut() -> (loader: Loader)
        ensures
            loader@ == closed(),
    {
        let loader = Loader {
            phase: Phase::Closed,
            base: String::new(),
            wasm_urls: Vec::new(),
            binaries: Vec::new(),
            gui_description: None,
        };
        assert(texts(loader.wasm_urls@) =~= Seq::<Seq<char>>::empty());
        assert(contents(loader.binaries@) =~= Seq::<Seq<u8>>::empty());
        loader
    }

    /// Asks for the next binary, or for the engine when none is left.
    fn next_binary(
        base: String,
        wasm_urls: Vec<String>,
        binaries: Vec<Vec<u8>>,
        gui_description: Option<String>,
    ) -> (next: (Loader, LoadAction))
        ensures
            (next.0@, next.1@) == next_binary(
                LoaderView {
                    phase: Phase::Binaries,
                    base: base@,
                    wasm_urls: texts(wasm_urls@),
                    binaries: contents(binaries@),
                    gui_description: text_of(gui_description),
                },
            ),
    {
        if binaries.len() < wasm_urls.len() {
            let url = join(base.as_str(), wasm_urls[binaries.len()].as_str());
            (
                Loader { phase: Phase::Binaries, base, wasm_urls, binaries, gui_description },
                LoadAction::FetchBinary(url),
            )
        } else {
            let waiting = Loader {
                phase: Phase::Engine,
                base,
                wasm_urls,
                binaries: Vec::new(),
                gui_description,
            };
            assert(contents(waiting.binaries@) =~= Seq::<Seq<u8>>::empty());
            (waiting, LoadAction::BuildEngine(binaries))
        }
    }

    /// Takes the report of the step that was asked for last and answers with
    /// the next action.
    pub fn advance(self, event: LoadEvent) -> (next: (Loader, LoadAction))
        ensures
            (next.0@, next.1@) == step(self@, event),
    {
        let Loader { phase, base, wasm_urls, binaries, gui_description } = self;
        match (phase, event) {
            (Phase::Manifest, LoadEvent::Text(Some(json))) => (
                Loader { phase: Phase::Parse, base, wasm_urls, binaries, gui_description },
                LoadAction::Parse(json),
            ),
            (Phase::Parse, LoadEvent::Manifest(Some(bundle))) => {
                let Bundle { wasm_url, gui: _, gui_description: description, info: _ } = bundle;
                Loader::next_binary(base, wasm_url, binaries, description)
            },
            (Phase::Binaries, LoadEvent::Binary(Some(bytes))) => {
                let mut binaries = binaries;
                let ghost before = contents(binaries@);
                let ghost arrived = bytes@;
                binaries.push(bytes);
                assert(contents(binaries@) =~= before.push(arrived));
                Loader::next_binary(base, wasm_urls, binaries, gui_description)
            },
            (Phase::Engine, LoadEvent::Engine(true)) => match gui_description {
                Some(path) => {
                    let url = join_with_slash(base.as_str(), path.as_str());
                    (
                        Loader {
                            phase: Phase::GuiDescription,
                            base,
                            wasm_urls,
                            binaries,
                            gui_description: Some(path),
                        },
                        LoadAction::FetchText(url),
                    )
                },
                None => (Loader::shut(), LoadAction::Ready(AAModule::new(None))),
            },
            (Phase::GuiDescription, LoadEvent::Text(text)) => (
                Loader::shut(),
                LoadAction::Ready(AAModule::new(text)),
            ),
            _ => (Loader::shut(), LoadAction::Fail),
        }
    }
}

/// Starts the construction of the module `module` under the base location
/// `url`: the first thing to fetch is the module's manifest.
pub fn aa_module_new(url: &str, module: &str) -> (next: (Loader, LoadAction))
    ensures
        (next.0@, next.1@) == start(url@, module@),
{
    let manifest = join_with_slash(url, module);
    let loader = Loader {
        phase: Phase::Manifest,
        base: String::from_str(url),
        wasm_urls: Vec::new(),
        binaries: Vec::new(),
        gui_description: None,
    };
    assert(texts(loader.wasm_urls@) =~= Seq::<Seq<char>>::empty());
    assert(contents(loader.binaries@) =~= Seq::<Seq<u8>>::empty());
    (loader, LoadAction::FetchText(manifest))
}

} // verus!
