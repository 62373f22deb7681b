//! What holds of every walk and of every builder.
use crate::builder::BuilderView;
use crate::bundle::{BundleView, ExchangeView, RequestView, ResponseView, Version};
use crate::error::{ErrorView, Field};
use crate::exchange_builder::{found, request_uri, ExchangeBuilderView, WalkEventView};
use crate::media::media_type_spec;
use crate::path::{diff_paths_spec, is_relative_spec};
use vstd::prelude::*;
use vstd::seq_lib::{
    lemma_multiset_commutative, to_multiset_contains, to_multiset_len, to_multiset_remove,
};

verus! {

/// The exchanges that the steps `events` add where none of them fails: one
/// for each regular file, in the order of the steps.
pub open spec fn added(base_dir: Seq<char>, base_url: Seq<char>, events: Seq<WalkEventView>) -> Seq<
    ExchangeView,
>
    decreases events.len(),
{
    if events.len() == 0 {
        Seq::empty()
    } else {
        let rest = added(base_dir, base_url, events.drop_first());
        match found(base_dir, base_url, events.first()) {
            Ok(Some(exchange)) => seq![exchange] + rest,
            _ => rest,
        }
    }
}

/// No step of `events` fails.
pub open spec fn all_found(base_dir: Seq<char>, base_url: Seq<char>, events: Seq<WalkEventView>) -> bool {
    forall|i: int| 0 <= i < events.len() ==> (#[trigger] found(base_dir, base_url, events[i])) is Ok
}

/// The URIs that the requests of `exchanges` ask for, as a set.
pub open spec fn uris(exchanges: Seq<ExchangeView>) -> Set<Seq<char>> {
    exchanges.map_values(|exchange: ExchangeView| exchange.request.uri).to_set()
}

/// A walk succeeds exactly where each of its steps does, whatever the
/// builder holds already. It then leaves the base directory and the base
/// URL as they are, keeps the exchanges that the builder held, and puts
/// behind them one exchange for each regular file, in the order of the
/// steps.
pub proof fn lemma_walk_adds(builder: ExchangeBuilderView, events: Seq<WalkEventView>)
    ensures
        builder.walk(events) is Ok <==> all_found(builder.base_dir, builder.base_url, events),
        builder.walk(events) is Ok ==> builder.walk(events) == Ok::<
            ExchangeBuilderView,
            ErrorView,
        >(
            ExchangeBuilderView {
                exchanges: builder.exchanges + added(builder.base_dir, builder.base_url, events),
                ..builder
            },
        ),
    decreases events.len(),
{
    let dir = builder.base_dir;
    let url = builder.base_url;
    if events.len() == 0 {
        assert(builder.exchanges + added(dir, url, events) =~= builder.exchanges);
    } else {
        let rest = events.drop_first();
        match builder.visit(events.first()) {
            Err(_) => {
                assert(found(dir, url, events[0]) is Err);
            },
            Ok(next) => {
                lemma_walk_adds(next, rest);
                if all_found(dir, url, rest) {
                    assert forall|i: int| 0 <= i < events.len() implies (#[trigger] found(
                        dir,
                        url,
                        events[i],
                    )) is Ok by {
                        if i > 0 {
                            assert(events[i] == rest[i - 1]);
                        }
                    }
                }
                if all_found(dir, url, events) {
                    assert forall|i: int| 0 <= i < rest.len() implies (#[trigger] found(
                        dir,
                        url,
                        rest[i],
                    )) is Ok by {
                        assert(rest[i] == events[i + 1]);
                    }
                }
                assert(next.exchanges + added(dir, url, rest) =~= builder.exchanges + added(
                    dir,
                    url,
                    events,
                ));
            },
        }
    }
}

/// The exchanges that two runs of steps add, one run after the other, are
/// those of the first followed by those of the second.
pub proof fn lemma_added_concat(
    base_dir: Seq<char>,
    base_url: Seq<char>,
    front: Seq<WalkEventView>,
    back: Seq<WalkEventView>,
)
    ensures
        added(base_dir, base_url, front + back) == added(base_dir, base_url, front) + added(
            base_dir,
            base_url,
            back,
        ),
    decreases front.len(),
{
    if front.len() == 0 {
        assert(front + back =~= back);
        assert(added(base_dir, base_url, front) + added(base_dir, base_url, back) =~= added(
            base_dir,
            base_url,
            back,
        ));
    } else {
        assert((front + back).drop_first() =~= front.drop_first() + back);
        assert((front + back).first() == front.first());
        lemma_added_concat(base_dir, base_url, front.drop_first(), back);
        assert(added(base_dir, base_url, front + back) =~= added(base_dir, base_url, front)
            + added(base_dir, base_url, back));
    }
}

/// An exchange is among those that `events` add exactly where one of the
/// steps adds it.
pub proof fn lemma_added_contains(
    base_dir: Seq<char>,
    base_url: Seq<char>,
    events: Seq<WalkEventView>,
    exchange: ExchangeView,
)
    ensures
        added(base_dir, base_url, events).contains(exchange) <==> exists|i: int|
            0 <= i < events.len() && (#[trigger] found(base_dir, base_url, events[i])) == Ok::<
                Option<ExchangeView>,
                ErrorView,
            >(Some(exchange)),
    decreases events.len(),
{
    let all = added(base_dir, base_url, events);
    if events.len() == 0 {
    } else {
        let rest = events.drop_first();
        let tail = added(base_dir, base_url, rest);
        let wanted = Ok::<Option<ExchangeView>, ErrorView>(Some(exchange));
        lemma_added_contains(base_dir, base_url, rest, exchange);
        let head = found(base_dir, base_url, events[0]);
        if all.contains(exchange) {
            let k = choose|k: int| 0 <= k < all.len() && all[k] == exchange;
            if head matches Ok(Some(first)) {
                if k == 0 {
                    assert(head == wanted);
                } else {
                    assert(tail[k - 1] == exchange);
                    assert(tail.contains(exchange));
                }
            } else {
                assert(tail.contains(exchange));
            }
            if tail.contains(exchange) {
                let j = choose|j: int|
                    0 <= j < rest.len() && (#[trigger] found(base_dir, base_url, rest[j]))
                        == wanted;
                assert(rest[j] == events[j + 1]);
                assert(found(base_dir, base_url, events[j + 1]) == wanted);
            }
        }
        if exists|i: int|
            0 <= i < events.len() && (#[trigger] found(base_dir, base_url, events[i])) == wanted {
            let i = choose|i: int|
                0 <= i < events.len() && (#[trigger] found(base_dir, base_url, events[i]))
                    == wanted;
            if i == 0 {
                assert(all[0] == exchange);
            } else {
                assert(rest[i - 1] == events[i]);
                assert(found(base_dir, base_url, rest[i - 1]) == wanted);
                assert(tail.contains(exchange));
                let k = choose|k: int| 0 <= k < tail.len() && tail[k] == exchange;
                if head matches Ok(Some(first)) {
                    assert(all[k + 1] == exchange);
                } else {
                    assert(all[k] == exchange);
                }
            }
        }
    }
}

/// Taking one step out of a run takes out what that step adds, and nothing
/// else.
proof fn lemma_added_remove(
    base_dir: Seq<char>,
    base_url: Seq<char>,
    events: Seq<WalkEventView>,
    i: int,
)
    requires
        0 <= i < events.len(),
    ensures
        added(base_dir, base_url, events).to_multiset() == added(
            base_dir,
            base_url,
            events.remove(i),
        ).to_multiset().add(added(base_dir, base_url, seq![events[i]]).to_multiset()),
{
    let front = events.subrange(0, i);
    let one = seq![events[i]];
    let back = events.subrange(i + 1, events.len() as int);
    assert(events =~= front + one + back);
    assert(events.remove(i) =~= front + back);
    let a = added(base_dir, base_url, front);
    let b = added(base_dir, base_url, one);
    let c = added(base_dir, base_url, back);
    lemma_added_concat(base_dir, base_url, front + one, back);
    lemma_added_concat(base_dir, base_url, front, one);
    lemma_added_concat(base_dir, base_url, front, back);
    lemma_multiset_commutative(a + b, c);
    lemma_multiset_commutative(a, b);
    lemma_multiset_commutative(a, c);
    assert((a + b + c).to_multiset() =~= (a + c).to_multiset().add(b.to_multiset()));
}

/// The same steps in another order add the same exchanges, each as often.
pub proof fn lemma_added_any_order(
    base_dir: Seq<char>,
    base_url: Seq<char>,
    first: Seq<WalkEventView>,
    second: Seq<WalkEventView>,
)
    requires
        first.to_multiset() == second.to_multiset(),
    ensures
        added(base_dir, base_url, first).to_multiset() == added(
            base_dir,
            base_url,
            second,
        ).to_multiset(),
    decreases first.len(),
{
    to_multiset_len(first);
    to_multiset_len(second);
    if first.len() == 0 {
        assert(second =~= first);
    } else {
        let event = first[0];
        assert(first.contains(event));
        to_multiset_contains(first, event);
        to_multiset_contains(second, event);
        let j = choose|j: int| 0 <= j < second.len() && second[j] == event;
        to_multiset_remove(first, 0);
        to_multiset_remove(second, j);
        lemma_added_any_order(base_dir, base_url, first.remove(0), second.remove(j));
        lemma_added_remove(base_dir, base_url, first, 0);
        lemma_added_remove(base_dir, base_url, second, j);
    }
}

/// Sequences that hold the same exchanges, each as often, ask for the same
/// set of URIs.
pub proof fn lemma_uris_any_order(first: Seq<ExchangeView>, second: Seq<ExchangeView>)
    requires
        first.to_multiset() == second.to_multiset(),
    ensures
        uris(first) == uris(second),
{
    let uri_of = |exchange: ExchangeView| exchange.request.uri;
    assert forall|uri: Seq<char>| uris(first).contains(uri) <==> uris(second).contains(uri) by {
        if uris(first).contains(uri) {
            let k = choose|k: int|
                0 <= k < first.map_values(uri_of).len() && first.map_values(uri_of)[k] == uri;
            assert(first.contains(first[k]));
            to_multiset_contains(first, first[k]);
            to_multiset_contains(second, first[k]);
            let m = choose|m: int| 0 <= m < second.len() && second[m] == first[k];
            assert(second.map_values(uri_of)[m] == uri);
        }
        if uris(second).contains(uri) {
            let k = choose|k: int|
                0 <= k < second.map_values(uri_of).len() && second.map_values(uri_of)[k] == uri;
            assert(second.contains(second[k]));
            to_multiset_contains(second, second[k]);
            to_multiset_contains(first, second[k]);
            let m = choose|m: int| 0 <= m < first.len() && first[m] == second[k];
            assert(first.map_values(uri_of)[m] == uri);
        }
    }
    assert(uris(first) =~= uris(second));
}

/// Walking the same tree twice gives the same resources, whatever the
/// order in which the walk reports the entries: where two walks take the
/// same steps, each as often, both succeed or both fail, and where they
/// succeed the builders hold the same exchanges, each as often, and the
/// same set of URIs. Which exchange comes first is not promised.
pub proof fn lemma_walk_any_order(
    builder: ExchangeBuilderView,
    first: Seq<WalkEventView>,
    second: Seq<WalkEventView>,
)
    requires
        first.to_multiset() == second.to_multiset(),
    ensures
        builder.walk(first) is Ok <==> builder.walk(second) is Ok,
        builder.walk(first) is Ok ==> {
            let one = builder.walk(first)->Ok_0;
            let other = builder.walk(second)->Ok_0;
            &&& one.base_dir == other.base_dir
            &&& one.base_url == other.base_url
            &&& one.exchanges.len() == other.exchanges.len()
            &&& one.exchanges.to_multiset() == other.exchanges.to_multiset()
            &&& uris(one.exchanges) == uris(other.exchanges)
        },
{
    let dir = builder.base_dir;
    let url = builder.base_url;
    lemma_walk_adds(builder, first);
    lemma_walk_adds(builder, second);
    if all_found(dir, url, first) {
        assert forall|i: int| 0 <= i < second.len() implies (#[trigger] found(
            dir,
            url,
            second[i],
        )) is Ok by {
            assert(second.contains(second[i]));
            to_multiset_contains(second, second[i]);
            to_multiset_contains(first, second[i]);
            let k = choose|k: int| 0 <= k < first.len() && first[k] == second[i];
            assert(found(dir, url, first[k]) is Ok);
        }
    }
    if all_found(dir, url, second) {
        assert forall|i: int| 0 <= i < first.len() implies (#[trigger] found(
            dir,
            url,
            first[i],
        )) is Ok by {
            assert(first.contains(first[i]));
            to_multiset_contains(first, first[i]);
            to_multiset_contains(second, first[i]);
            let k = choose|k: int| 0 <= k < second.len() && second[k] == first[i];
            assert(found(dir, url, second[k]) is Ok);
        }
    }
    if builder.walk(first) is Ok {
        let one = builder.walk(first)->Ok_0;
        let other = builder.walk(second)->Ok_0;
        lemma_added_any_order(dir, url, first, second);
        lemma_multiset_commutative(builder.exchanges, added(dir, url, first));
        lemma_multiset_commutative(builder.exchanges, added(dir, url, second));
        to_multiset_len(one.exchanges);
        to_multiset_len(other.exchanges);
        lemma_uris_any_order(one.exchanges, other.exchanges);
    }
}

/// Symbolic links never add a resource: a walk with a symbolic link among
/// its steps ends as the walk without that step does, whatever the link is
/// called and wherever it stands.
pub proof fn lemma_symlink_adds_nothing(
    builder: ExchangeBuilderView,
    events: Seq<WalkEventView>,
    i: int,
)
    requires
        0 <= i < events.len(),
        events[i] is Symlink,
    ensures
        builder.walk(events) == builder.walk(events.remove(i)),
    decreases events.len(),
{
    if i == 0 {
        assert(events.remove(0) =~= events.drop_first());
    } else {
        let without = events.remove(i);
        assert(without.first() == events.first());
        assert(without.drop_first() =~= events.drop_first().remove(i - 1));
        match builder.visit(events.first()) {
            Err(_) => {},
            Ok(next) => {
                lemma_symlink_adds_nothing(next, events.drop_first(), i - 1);
            },
        }
    }
}

/// Only a regular file that was read adds an exchange, and the exchange
/// says what the file is: the request is the GET request for the path of
/// the file, as seen from the base directory, joined onto the base URL;
/// the response has status `200`, the bytes of the file as its body, their
/// number as its content length, and the media type of the path.
pub proof fn lemma_only_files_add(
    base_dir: Seq<char>,
    base_url: Seq<char>,
    event: WalkEventView,
    exchange: ExchangeView,
)
    requires
        found(base_dir, base_url, event) == Ok::<Option<ExchangeView>, ErrorView>(Some(exchange)),
    ensures
        ({
            &&& event matches WalkEventView::File(path, Ok(body))
            &&& diff_paths_spec(path, base_dir) matches Some(relative_path)
            &&& is_relative_spec(relative_path)
            &&& request_uri(base_url, relative_path) matches Ok(uri)
            &&& exchange == (ExchangeView {
                request: RequestView::get(uri),
                response: ResponseView::ok(media_type_spec(relative_path), body),
            })
        }),
        exchange.response.wf(),
        exchange.response.body.len() == exchange.response.content_length,
{
}

/// Every exchange that a successful walk puts into an empty builder comes
/// from a regular file among its steps, and announces the length of its
/// body.
pub proof fn lemma_walk_exchanges_come_from_files(
    base_dir: Seq<char>,
    base_url: Seq<char>,
    events: Seq<WalkEventView>,
    k: int,
)
    requires
        ExchangeBuilderView::new(base_dir, base_url).walk(events) is Ok,
        0 <= k < ExchangeBuilderView::new(base_dir, base_url).walk(events)->Ok_0.exchanges.len(),
    ensures
        ({
            let exchange = ExchangeBuilderView::new(base_dir, base_url).walk(
                events,
            )->Ok_0.exchanges[k];
            &&& exchange.response.wf()
            &&& exists|i: int|
                0 <= i < events.len() && events[i] is File && (#[trigger] found(
                    base_dir,
                    base_url,
                    events[i],
                )) == Ok::<Option<ExchangeView>, ErrorView>(Some(exchange))
        }),
{
    let builder = ExchangeBuilderView::new(base_dir, base_url);
    lemma_walk_adds(builder, events);
    let items = added(base_dir, base_url, events);
    assert(builder.exchanges + items =~= items);
    let exchange = items[k];
    assert(items.contains(exchange));
    lemma_added_contains(base_dir, base_url, events, exchange);
    let i = choose|i: int|
        0 <= i < events.len() && (#[trigger] found(base_dir, base_url, events[i])) == Ok::<
            Option<ExchangeView>,
            ErrorView,
        >(Some(exchange));
    lemma_only_files_add(base_dir, base_url, events[i], exchange);
}

/// Building succeeds exactly where the version and the primary URL are
/// set. A missing version is reported before a missing primary URL, and
/// neither the manifest URL nor the exchanges play a part.
pub proof fn lemma_build_needs_version_and_primary_url(builder: BuilderView)
    ensures
        builder.build() is Ok <==> builder.version is Some && builder.primary_url is Some,
        builder.version is None ==> builder.build() == Err::<BundleView, ErrorView>(
            ErrorView::MissingField(Field::Version),
        ),
        builder.version is Some && builder.primary_url is None ==> builder.build() == Err::<
            BundleView,
            ErrorView,
        >(ErrorView::MissingField(Field::PrimaryUrl)),
        BuilderView::empty().build() is Err,
{
}

/// A bundle holds exactly what was given to its builder: once a version
/// and a primary URL are set, in either order, building succeeds and the
/// bundle has that version and that primary URL, together with the
/// manifest URL and the exchanges that the builder held.
pub proof fn lemma_build_keeps_what_was_set(
    builder: BuilderView,
    version: Version,
    primary_url: Seq<char>,
)
    ensures
        builder.version(version).primary_url(primary_url).build() == Ok::<BundleView, ErrorView>(
            BundleView {
                version,
                primary_url,
                manifest: builder.manifest,
                exchanges: builder.exchanges,
            },
        ),
        builder.primary_url(primary_url).version(version).build() == builder.version(
            version,
        ).primary_url(primary_url).build(),
        BuilderView::empty().version(version).primary_url(primary_url).build() == Ok::<
            BundleView,
            ErrorView,
        >(BundleView { version, primary_url, manifest: None, exchanges: Seq::empty() }),
{
}

/// Setting the manifest URL or adding an exchange changes nothing but the
/// manifest URL or the exchanges of the bundle, and the exchanges keep the
/// order in which they were added.
pub proof fn lemma_build_keeps_order(
    builder: BuilderView,
    manifest: Seq<char>,
    one: ExchangeView,
    other: ExchangeView,
)
    requires
        builder.build() is Ok,
    ensures
        builder.manifest(manifest).build() == Ok::<BundleView, ErrorView>(
            BundleView { manifest: Some(manifest), ..builder.build()->Ok_0 },
        ),
        builder.exchange(one).exchange(other).build() == Ok::<BundleView, ErrorView>(
            BundleView {
                exchanges: builder.exchanges + seq![one, other],
                ..builder.build()->Ok_0
            },
        ),
{
    assert(builder.exchanges.push(one).push(other) =~= builder.exchanges + seq![one, other]);
}

} // verus!
