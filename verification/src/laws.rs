//! What holds of every rendered query and of every invocation.

use crate::params::{optional_pair, Pair, ParameterSet};
use crate::response::ProviderResponse;
use crate::session::{
    ending_of, step_after, ApiError, DownloadView, EndingView, Fault, SaveError, StepView,
};
use vstd::prelude::*;

verus! {

/// The place of a parameter name in the fixed order of the query; 6 for a
/// name that is none of the six.
pub open spec fn field_rank(name: Seq<char>) -> int {
    if name == "collections"@ {
        0
    } else if name == "topics"@ {
        1
    } else if name == "query"@ {
        2
    } else if name == "username"@ {
        3
    } else if name == "orientation"@ {
        4
    } else if name == "content_filter"@ {
        5
    } else {
        6
    }
}

/// The names in `pairs` stand in strictly rising order of rank, all below `bound`.
pub open spec fn ranked_below(pairs: Seq<Pair>, bound: int) -> bool {
    &&& forall|i: int| 0 <= i < pairs.len() ==> field_rank(#[trigger] pairs[i].0) < bound
    &&& forall|i: int, j: int|
        0 <= i < j < pairs.len() ==> field_rank(#[trigger] pairs[i].0) < field_rank(
            #[trigger] pairs[j].0,
        )
}

/// The six parameter names are pairwise different, so each has its own rank.
pub proof fn lemma_field_names_differ()
    ensures
        field_rank("collections"@) == 0,
        field_rank("topics"@) == 1,
        field_rank("query"@) == 2,
        field_rank("username"@) == 3,
        field_rank("orientation"@) == 4,
        field_rank("content_filter"@) == 5,
{
    reveal_strlit("collections");
    reveal_strlit("topics");
    reveal_strlit("query");
    reveal_strlit("username");
    reveal_strlit("orientation");
    reveal_strlit("content_filter");
    assert("collections"@.len() == 11 && "collections"@[0] == 'c');
    assert("topics"@.len() == 6);
    assert("query"@.len() == 5);
    assert("username"@.len() == 8);
    assert("orientation"@.len() == 11 && "orientation"@[0] == 'o');
    assert("content_filter"@.len() == 14);
}

/// With every field unset, the query is the default orientation and nothing else.
pub proof fn lemma_unset_fields_render_default(p: ParameterSet)
    requires
        p.collections.len() == 0,
        p.topics.len() == 0,
        p.username.len() == 0,
        p.query.len() == 0,
        p.orientation.len() == 0,
        p.content_filter.len() == 0,
    ensures
        p.rendered() == seq![("orientation"@, "landscape"@)],
{
    assert(p.rendered() =~= seq![("orientation"@, "landscape"@)]);
}

/// A pair is in the query exactly when it is the pair of a field that is set,
/// or the orientation pair.
pub proof fn lemma_rendered_members(p: ParameterSet, pair: Pair)
    ensures
        p.rendered().contains(pair) <==> {
            ||| p.collections.len() > 0 && pair == ("collections"@, p.collections)
            ||| p.topics.len() > 0 && pair == ("topics"@, p.topics)
            ||| p.query.len() > 0 && pair == ("query"@, p.query)
            ||| p.username.len() > 0 && pair == ("username"@, p.username)
            ||| pair == ("orientation"@, p.orientation_or_default())
            ||| p.content_filter.len() > 0 && pair == ("content_filter"@, p.content_filter)
        },
{
    broadcast use vstd::seq_lib::lemma_seq_concat_contains_all_elements;

    lemma_optional_pair_members("collections"@, p.collections, pair);
    lemma_optional_pair_members("topics"@, p.topics, pair);
    lemma_optional_pair_members("query"@, p.query, pair);
    lemma_optional_pair_members("username"@, p.username, pair);
    lemma_optional_pair_members("content_filter"@, p.content_filter, pair);
    let orientation = seq![("orientation"@, p.orientation_or_default())];
    assert(orientation[0] == ("orientation"@, p.orientation_or_default()));
}

/// The pair of an optional field is its only member, and only when the value is set.
proof fn lemma_optional_pair_members(name: Seq<char>, value: Seq<char>, pair: Pair)
    ensures
        optional_pair(name, value).contains(pair) <==> value.len() > 0 && pair == (name, value),
{
    if value.len() > 0 {
        assert(optional_pair(name, value)[0] == (name, value));
    }
}

/// The pair of an optional field, put behind pairs of lower rank, keeps the order.
proof fn lemma_append_keeps_order(front: Seq<Pair>, name: Seq<char>, value: Seq<char>)
    requires
        ranked_below(front, field_rank(name)),
    ensures
        ranked_below(front + optional_pair(name, value), field_rank(name) + 1),
{
    let whole = front + optional_pair(name, value);
    assert forall|i: int| 0 <= i < whole.len() implies field_rank(#[trigger] whole[i].0)
        < field_rank(name) + 1 by {
        if i < front.len() {
            assert(whole[i] == front[i]);
        }
    }
    assert forall|i: int, j: int| 0 <= i < j < whole.len() implies field_rank(
        #[trigger] whole[i].0,
    ) < field_rank(#[trigger] whole[j].0) by {
        assert(whole[i] == front[i]);
        if j < front.len() {
            assert(whole[j] == front[j]);
        }
    }
}

/// Each field that is set appears in the query with its exact value, a field
/// that is unset has no pair (but for the orientation, which always has one),
/// and the pairs stand in the fixed order: collections, topics, query,
/// username, orientation, content filter.
pub proof fn lemma_set_fields_render_in_order(p: ParameterSet)
    ensures
        p.collections.len() > 0 ==> p.rendered().contains(("collections"@, p.collections)),
        p.topics.len() > 0 ==> p.rendered().contains(("topics"@, p.topics)),
        p.query.len() > 0 ==> p.rendered().contains(("query"@, p.query)),
        p.username.len() > 0 ==> p.rendered().contains(("username"@, p.username)),
        p.orientation.len() > 0 ==> p.rendered().contains(("orientation"@, p.orientation)),
        p.orientation.len() == 0 ==> p.rendered().contains(("orientation"@, "landscape"@)),
        p.content_filter.len() > 0 ==> p.rendered().contains(
            ("content_filter"@, p.content_filter),
        ),
        p.collections.len() == 0 ==> forall|value: Seq<char>|
            !p.rendered().contains(("collections"@, value)),
        p.topics.len() == 0 ==> forall|value: Seq<char>|
            !p.rendered().contains(("topics"@, value)),
        p.query.len() == 0 ==> forall|value: Seq<char>| !p.rendered().contains(("query"@, value)),
        p.username.len() == 0 ==> forall|value: Seq<char>|
            !p.rendered().contains(("username"@, value)),
        p.content_filter.len() == 0 ==> forall|value: Seq<char>|
            !p.rendered().contains(("content_filter"@, value)),
        ranked_below(p.rendered(), 6),
{
    lemma_field_names_differ();
    lemma_rendered_members(p, ("collections"@, p.collections));
    lemma_rendered_members(p, ("topics"@, p.topics));
    lemma_rendered_members(p, ("query"@, p.query));
    lemma_rendered_members(p, ("username"@, p.username));
    lemma_rendered_members(p, ("orientation"@, p.orientation));
    lemma_rendered_members(p, ("orientation"@, "landscape"@));
    lemma_rendered_members(p, ("content_filter"@, p.content_filter));
    assert forall|value: Seq<char>|
        {
            &&& p.collections.len() == 0 ==> !p.rendered().contains(("collections"@, value))
            &&& p.topics.len() == 0 ==> !p.rendered().contains(("topics"@, value))
            &&& p.query.len() == 0 ==> !p.rendered().contains(("query"@, value))
            &&& p.username.len() == 0 ==> !p.rendered().contains(("username"@, value))
            &&& p.content_filter.len() == 0 ==> !p.rendered().contains(
                ("content_filter"@, value),
            )
        } by {
        lemma_rendered_members(p, ("collections"@, value));
        lemma_rendered_members(p, ("topics"@, value));
        lemma_rendered_members(p, ("query"@, value));
        lemma_rendered_members(p, ("username"@, value));
        lemma_rendered_members(p, ("content_filter"@, value));
    }
    let front = Seq::<Pair>::empty();
    lemma_append_keeps_order(front, "collections"@, p.collections);
    let front = front + optional_pair("collections"@, p.collections);
    lemma_append_keeps_order(front, "topics"@, p.topics);
    let front = front + optional_pair("topics"@, p.topics);
    lemma_append_keeps_order(front, "query"@, p.query);
    let front = front + optional_pair("query"@, p.query);
    lemma_append_keeps_order(front, "username"@, p.username);
    let front = front + optional_pair("username"@, p.username);
    reveal_strlit("landscape");
    assert("landscape"@.len() == 9);
    lemma_append_keeps_order(front, "orientation"@, p.orientation_or_default());
    let front = front + optional_pair("orientation"@, p.orientation_or_default());
    lemma_append_keeps_order(front, "content_filter"@, p.content_filter);
    let front = front + optional_pair("content_filter"@, p.content_filter);
    assert(front =~= p.rendered());
}

/// An orientation that is supplied is rendered as it is, and the query holds
/// no other orientation beside it.
pub proof fn lemma_supplied_orientation_is_kept(p: ParameterSet)
    requires
        p.orientation.len() > 0,
    ensures
        p.rendered().contains(("orientation"@, p.orientation)),
        forall|value: Seq<char>|
            p.rendered().contains(("orientation"@, value)) ==> value == p.orientation,
{
    lemma_field_names_differ();
    lemma_rendered_members(p, ("orientation"@, p.orientation));
    assert forall|value: Seq<char>|
        p.rendered().contains(("orientation"@, value)) implies value == p.orientation by {
        lemma_rendered_members(p, ("orientation"@, value));
    }
}

/// With the orientation `square`, the query holds the pair
/// `("orientation", "square")` and not the default one.
pub proof fn lemma_square_replaces_default(p: ParameterSet)
    requires
        p.orientation == "square"@,
    ensures
        p.rendered().contains(("orientation"@, "square"@)),
        !p.rendered().contains(("orientation"@, "landscape"@)),
{
    reveal_strlit("square");
    reveal_strlit("landscape");
    assert("square"@.len() == 6);
    assert("landscape"@.len() == 9);
    lemma_supplied_orientation_is_kept(p);
}

/// A reply with a `raw` address asks for exactly one download, of that
/// address into `<folder>/<id>.jpg`, and once the image is stored the host gets
/// the identifier.
pub proof fn lemma_raw_reply_is_stored_under_its_id(folder: Seq<char>, response: ProviderResponse)
    requires
        response.urls.contains_key("raw"@),
    ensures
        step_after(folder, Ok(response)) == StepView::Download(
            DownloadView {
                id: response.id,
                url: response.urls["raw"@],
                path: folder + "/"@ + response.id + ".jpg"@,
            },
        ),
        ending_of(folder, Ok(response), Ok(())).text() == Some(response.id),
{
}

/// A failed call to the provider asks for no download, and the host gets the
/// text `ERROR`, whatever the failure was.
pub proof fn lemma_failed_call_gives_sentinel(
    folder: Seq<char>,
    error: ApiError,
    saved: Result<(), SaveError>,
)
    ensures
        step_after(folder, Err(error)) == StepView::End(EndingView::ErrorSentinel),
        ending_of(folder, Err(error), saved).text() == Some("ERROR"@),
{
}

/// A reply without a `raw` address asks for no download and ends in the
/// fault `MissingRaw`, with no text for the host.
pub proof fn lemma_missing_raw_is_a_fault(
    folder: Seq<char>,
    response: ProviderResponse,
    saved: Result<(), SaveError>,
)
    requires
        !response.urls.contains_key("raw"@),
    ensures
        step_after(folder, Ok(response)) == StepView::End(EndingView::Abort(Fault::MissingRaw)),
        ending_of(folder, Ok(response), saved) == EndingView::Abort(Fault::MissingRaw),
        ending_of(folder, Ok(response), saved).text() is None,
{
}

/// Every invocation ends in exactly one of three ways. The sentinel comes
/// for a failed call to the provider and for nothing else; an identifier
/// comes only for an image that is stored, and is the one of the reply; every
/// other run is aborted.
pub proof fn lemma_one_ending(
    folder: Seq<char>,
    reply: Result<ProviderResponse, ApiError>,
    saved: Result<(), SaveError>,
)
    ensures
        ending_of(folder, reply, saved) is ErrorSentinel <==> reply is Err,
        ending_of(folder, reply, saved) is Identifier <==> reply is Ok
            && reply->Ok_0.urls.contains_key("raw"@) && saved is Ok,
        ending_of(folder, reply, saved) is Identifier ==> ending_of(folder, reply, saved)
            == EndingView::Identifier(reply->Ok_0.id),
        ending_of(folder, reply, saved) is Abort <==> reply is Ok && (!reply->Ok_0.urls.contains_key(
            "raw"@,
        ) || saved is Err),
{
}

} // verus!
