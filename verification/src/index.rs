//! The order of the blog index: newest post first, and posts of one day in
//! the order in which they were found.

use crate::date::{earlier, Ymd};
use crate::post::{Post, PostView};
use vstd::prelude::*;

verus! {

/// The posts of a list, each by its view.
pub open spec fn views(posts: Seq<Post>) -> Seq<PostView> {
    posts.map_values(|post: Post| post@)
}

/// No post stands before a newer one.
pub open spec fn is_newest_first(posts: Seq<PostView>) -> bool {
    forall|i: int, j: int|
        0 <= i < j < posts.len() ==> !earlier(#[trigger] posts[i].date, #[trigger] posts[j].date)
}

/// The test for a post to be of the given day.
pub open spec fn is_dated(day: Ymd) -> spec_fn(PostView) -> bool {
    |post: PostView| post.date == day
}

/// The posts of one day, in the order in which the sequence has them.
pub open spec fn posts_of_day(posts: Seq<PostView>, day: Ymd) -> Seq<PostView> {
    posts.filter(is_dated(day))
}

/// Both sequences hold the same posts, each as often, and the posts of any
/// one day in the same order.
pub open spec fn same_posts_by_day(posts: Seq<PostView>, others: Seq<PostView>) -> bool {
    forall|day: Ymd| #[trigger] posts_of_day(others, day) == posts_of_day(posts, day)
}

/// `index` is the blog index of `posts`: the same posts, newest first, with
/// the posts of one day left in the order they had.
pub open spec fn is_index_of(posts: Seq<PostView>, index: Seq<PostView>) -> bool {
    is_newest_first(index) && same_posts_by_day(posts, index)
}

proof fn lemma_day_of_push(posts: Seq<PostView>, post: PostView, day: Ymd)
    ensures
        posts_of_day(posts.push(post), day) == if post.date == day {
            posts_of_day(posts, day).push(post)
        } else {
            posts_of_day(posts, day)
        },
{
    reveal(Seq::filter);
    assert(posts.push(post).drop_last() == posts);
}

proof fn lemma_day_of_none(posts: Seq<PostView>, day: Ymd)
    requires
        forall|i: int| 0 <= i < posts.len() ==> (#[trigger] posts[i]).date != day,
    ensures
        posts_of_day(posts, day) == Seq::<PostView>::empty(),
    decreases posts.len(),
{
    reveal(Seq::filter);
    if posts.len() > 0 {
        lemma_day_of_none(posts.drop_last(), day);
    }
}

proof fn lemma_day_of_parts(posts: Seq<PostView>, at: int, day: Ymd)
    requires
        0 <= at <= posts.len(),
    ensures
        posts_of_day(posts, day) == posts_of_day(posts.take(at), day) + posts_of_day(
            posts.skip(at),
            day,
        ),
{
    assert(posts == posts.take(at) + posts.skip(at));
    Seq::filter_distributes_over_add(posts.take(at), posts.skip(at), is_dated(day));
}

/// Putting a post behind every post that is not older, and before every
/// post that is, keeps an index an index: of the posts it held and the new
/// one after them.
proof fn lemma_insert_keeps_index(
    posts: Seq<PostView>,
    index: Seq<PostView>,
    post: PostView,
    at: int,
)
    requires
        is_index_of(posts, index),
        0 <= at <= index.len(),
        forall|i: int| 0 <= i < at ==> !earlier((#[trigger] index[i]).date, post.date),
        forall|i: int| at <= i < index.len() ==> earlier((#[trigger] index[i]).date, post.date),
    ensures
        is_index_of(posts.push(post), index.insert(at, post)),
{
    let longer = index.insert(at, post);
    assert forall|i: int, j: int| 0 <= i < j < longer.len() implies !earlier(
        #[trigger] longer[i].date,
        #[trigger] longer[j].date,
    ) by {
        if j < at {
            assert(longer[i] == index[i] && longer[j] == index[j]);
        } else if j == at {
            assert(longer[i] == index[i]);
        } else if i < at {
            assert(longer[i] == index[i] && longer[j] == index[j - 1]);
        } else if i == at {
            assert(longer[j] == index[j - 1]);
        } else {
            assert(longer[i] == index[i - 1] && longer[j] == index[j - 1]);
        }
    }
    assert forall|day: Ymd| #[trigger]
        posts_of_day(longer, day) == posts_of_day(posts.push(post), day) by {
        let head = index.take(at);
        let tail = index.skip(at);
        assert(longer == head.push(post) + tail);
        Seq::filter_distributes_over_add(head.push(post), tail, is_dated(day));
        lemma_day_of_push(head, post, day);
        lemma_day_of_push(posts, post, day);
        lemma_day_of_parts(index, at, day);
        assert(posts_of_day(index, day) == posts_of_day(posts, day));
        if post.date == day {
            assert forall|i: int| 0 <= i < tail.len() implies (#[trigger] tail[i]).date != day by {
                assert(tail[i] == index[at + i]);
            }
            lemma_day_of_none(tail, day);
            assert(posts_of_day(head, day) + Seq::<PostView>::empty() == posts_of_day(head, day));
            assert(posts_of_day(head, day).push(post) + Seq::<PostView>::empty() == posts_of_day(
                head,
                day,
            ).push(post));
        }
    }
}

proof fn lemma_day_of_last(posts: Seq<PostView>)
    requires
        posts.len() > 0,
    ensures
        posts_of_day(posts, posts.last().date) == posts_of_day(
            posts.drop_last(),
            posts.last().date,
        ).push(posts.last()),
        forall|day: Ymd|
            day != posts.last().date ==> #[trigger] posts_of_day(posts, day) == posts_of_day(
                posts.drop_last(),
                day,
            ),
{
    assert(posts.drop_last().push(posts.last()) == posts);
    assert forall|day: Ymd| true implies #[trigger] posts_of_day(posts, day) == if posts.last().date
        == day {
        posts_of_day(posts.drop_last(), day).push(posts.last())
    } else {
        posts_of_day(posts.drop_last(), day)
    } by {
        lemma_day_of_push(posts.drop_last(), posts.last(), day);
    }
}

/// A post among those of a day is a post of the sequence, and of that day.
proof fn lemma_day_of_member(posts: Seq<PostView>, day: Ymd, k: int) -> (i: int)
    requires
        0 <= k < posts_of_day(posts, day).len(),
    ensures
        0 <= i < posts.len(),
        posts[i] == posts_of_day(posts, day)[k],
        posts[i].date == day,
{
    let found = posts_of_day(posts, day)[k];
    posts.lemma_filter_pred(is_dated(day), k);
    assert(posts_of_day(posts, day).contains(found));
    posts.lemma_filter_contains_rev(is_dated(day), found);
    choose|i: int| 0 <= i < posts.len() && posts[i] == found
}

/// Two sequences that are both newest first, and hold the same posts day by
/// day, are one and the same.
proof fn lemma_newest_first_is_unique(first: Seq<PostView>, second: Seq<PostView>)
    requires
        is_newest_first(first),
        is_newest_first(second),
        same_posts_by_day(first, second),
    ensures
        first == second,
    decreases first.len(),
{
    reveal(Seq::filter);
    if first.len() == 0 {
        if second.len() > 0 {
            lemma_day_of_last(second);
            assert(posts_of_day(second, second.last().date) == posts_of_day(
                first,
                second.last().date,
            ));
        }
        assert(first =~= second);
    } else if second.len() == 0 {
        lemma_day_of_last(first);
        assert(posts_of_day(second, first.last().date) == posts_of_day(first, first.last().date));
    } else {
        let a = first.last();
        let b = second.last();
        lemma_day_of_last(first);
        lemma_day_of_last(second);
        assert(posts_of_day(second, a.date) == posts_of_day(first, a.date));
        assert(posts_of_day(second, b.date) == posts_of_day(first, b.date));
        let in_second = lemma_day_of_member(
            second,
            a.date,
            posts_of_day(first.drop_last(), a.date).len() as int,
        );
        let in_first = lemma_day_of_member(
            first,
            b.date,
            posts_of_day(second.drop_last(), b.date).len() as int,
        );
        assert(!earlier(second[in_second].date, b.date));
        assert(!earlier(first[in_first].date, a.date));
        assert(a.date == b.date);
        let day = a.date;
        let head = posts_of_day(first.drop_last(), day);
        let other = posts_of_day(second.drop_last(), day);
        assert(head.push(a) == other.push(b));
        assert(head.push(a).last() == a && other.push(b).last() == b);
        assert(head.push(a).drop_last() == head && other.push(b).drop_last() == other);
        assert forall|d: Ymd| #[trigger]
            posts_of_day(second.drop_last(), d) == posts_of_day(first.drop_last(), d) by {
            assert(posts_of_day(second, d) == posts_of_day(first, d));
        }
        lemma_newest_first_is_unique(first.drop_last(), second.drop_last());
        assert(first == first.drop_last().push(a));
        assert(second == second.drop_last().push(b));
    }
}

/// A sequence of posts has one index only: the order of the index is fixed
/// by the dates, and among posts of one day by the order they came in.
pub proof fn lemma_index_is_unique(posts: Seq<PostView>, first: Seq<PostView>, second: Seq<PostView>)
    requires
        is_index_of(posts, first),
        is_index_of(posts, second),
    ensures
        first == second,
{
    assert forall|day: Ymd| #[trigger]
        posts_of_day(second, day) == posts_of_day(first, day) by {
        assert(posts_of_day(second, day) == posts_of_day(posts, day));
        assert(posts_of_day(first, day) == posts_of_day(posts, day));
    }
    lemma_newest_first_is_unique(first, second);
}

/// Where a post of the given day goes into an index: behind the last post
/// that is not older.
fn insertion_point(index: &Vec<Post>, post: &Post) -> (at: usize)
    requires
        is_newest_first(views(index@)),
    ensures
        at <= index@.len(),
        forall|i: int| 0 <= i < at ==> !earlier((#[trigger] views(index@)[i]).date, post@.date),
        forall|i: int|
            at <= i < index@.len() ==> earlier((#[trigger] views(index@)[i]).date, post@.date),
{
    let mut at = index.len();
    while at > 0 && index[at - 1].date.is_before(&post.date)
        invariant
            at <= index@.len(),
            forall|i: int|
                at <= i < index@.len() ==> earlier(
                    (#[trigger] views(index@)[i]).date,
                    post@.date,
                ),
        decreases at,
    {
        at = at - 1;
    }
    proof {
        if at > 0 {
            let last = views(index@)[at - 1];
            assert(!earlier(last.date, post@.date));
            assert forall|i: int| 0 <= i < at implies !earlier(
                (#[trigger] views(index@)[i]).date,
                post@.date,
            ) by {
                if i < at - 1 {
                    assert(!earlier(views(index@)[i].date, views(index@)[at - 1].date));
                }
            }
        }
    }
    at
}

/// Orders posts for the blog index: newest first. Posts of the same day keep
/// the order in which they came.
pub fn sort_newest_first(posts: Vec<Post>) -> (index: Vec<Post>)
    ensures
        is_index_of(views(posts@), views(index@)),
        index@.len() == posts@.len(),
{
    let ghost all = posts@;
    let mut index: Vec<Post> = Vec::new();
    proof {
        assert(views(all.take(0)) =~= views(index@));
    }
    for post in it: posts
        invariant
            it.seq() == all,
            index@.len() == it.index(),
            is_index_of(views(all.take(it.index())), views(index@)),
    {
        let at = insertion_point(&index, &post);
        proof {
            let done = it.index();
            lemma_insert_keeps_index(views(all.take(done)), views(index@), post@, at as int);
            assert(views(all.take(done)).push(post@) =~= views(all.take(done + 1)));
            assert(views(index@).insert(at as int, post@) =~= views(
                index@.insert(at as int, post),
            ));
        }
        index.insert(at, post);
    }
    proof {
        assert(all.take(all.len() as int) == all);
    }
    index
}

} // verus!
