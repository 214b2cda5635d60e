//! Requests that wait for the user, by session and by identifier.
use crate::modeled::{Modeled, contents, opt_ref_content};
use crate::opencode_server::types::{
    OpenCodePendingPermission, OpenCodePendingQuestion, PendingQuestionView, PermissionView,
};
use crate::text::same;
use vstd::prelude::*;

verus! {

/// A request that a session waits for.
pub trait Pending: Modeled {
    /// The session that waits.
    spec fn session_of(m: Self::Model) -> Seq<char>;

    /// The identifier of the request.
    spec fn request_of(m: Self::Model) -> Seq<char>;

    /// The session that waits.
    fn session(&self) -> (r: &str)
        ensures
            r@ == Self::session_of(self.content()),
    ;

    /// The identifier of the request.
    fn request(&self) -> (r: &str)
        ensures
            r@ == Self::request_of(self.content()),
    ;
}

impl Pending for OpenCodePendingPermission {
    open spec fn session_of(m: PermissionView) -> Seq<char> {
        m.session_id
    }

    open spec fn request_of(m: PermissionView) -> Seq<char> {
        m.id
    }

    fn session(&self) -> (r: &str) {
        self.session_id.as_str()
    }

    fn request(&self) -> (r: &str) {
        self.id.as_str()
    }
}

impl Pending for OpenCodePendingQuestion {
    open spec fn session_of(m: PendingQuestionView) -> Seq<char> {
        m.session_id
    }

    open spec fn request_of(m: PendingQuestionView) -> Seq<char> {
        m.id
    }

    fn session(&self) -> (r: &str) {
        self.session_id.as_str()
    }

    fn request(&self) -> (r: &str) {
        self.id.as_str()
    }
}

/// The requests of a session, or those of the others.
pub open spec fn sorted_out<T: Pending>(
    requests: Seq<T::Model>,
    session: Seq<char>,
    of_session: bool,
) -> Seq<T::Model>
    decreases requests.len(),
{
    if requests.len() == 0 {
        Seq::empty()
    } else {
        let before = sorted_out::<T>(requests.drop_last(), session, of_session);
        if (T::session_of(requests.last()) == session) == of_session {
            before.push(requests.last())
        } else {
            before
        }
    }
}

/// The requests other than the one with the identifier.
pub open spec fn without_request<T: Pending>(requests: Seq<T::Model>, id: Seq<char>) -> Seq<
    T::Model,
>
    decreases requests.len(),
{
    if requests.len() == 0 {
        Seq::empty()
    } else {
        let before = without_request::<T>(requests.drop_last(), id);
        if T::request_of(requests.last()) != id {
            before.push(requests.last())
        } else {
            before
        }
    }
}

/// The first request of a session.
pub open spec fn first_of_session<T: Pending>(
    requests: Seq<T::Model>,
    session: Seq<char>,
) -> Option<T::Model>
    decreases requests.len(),
{
    if requests.len() == 0 {
        None
    } else if T::session_of(requests[0]) == session {
        Some(requests[0])
    } else {
        first_of_session::<T>(requests.skip(1), session)
    }
}

/// The first request with an identifier.
pub open spec fn request_with_id<T: Pending>(requests: Seq<T::Model>, id: Seq<char>) -> Option<
    T::Model,
>
    decreases requests.len(),
{
    if requests.len() == 0 {
        None
    } else if T::request_of(requests[0]) == id {
        Some(requests[0])
    } else {
        request_with_id::<T>(requests.skip(1), id)
    }
}

/// The requests of a session, or those of the others.
pub fn sort_out<T: Pending>(requests: &Vec<T>, session: &str, of_session: bool) -> (r: Vec<T>)
    ensures
        contents(r@) == sorted_out::<T>(contents(requests@), session@, of_session),
{
    let ghost all = contents(requests@);
    let mut r: Vec<T> = Vec::new();
    let mut i: usize = 0;
    assert(contents(r@) =~= Seq::empty());
    while i < requests.len()
        invariant
            i <= requests@.len(),
            all == contents(requests@),
            contents(r@) == sorted_out::<T>(all.take(i as int), session@, of_session),
        decreases requests@.len() - i,
    {
        let ghost done = contents(r@);
        proof {
            assert(all.take(i as int + 1).drop_last() =~= all.take(i as int));
            assert(all.take(i as int + 1).last() == requests@[i as int].content());
        }
        if same(requests[i].session(), session) == of_session {
            r.push(requests[i].copy());
            assert(contents(r@) =~= done.push(requests@[i as int].content()));
        }
        i = i + 1;
    }
    assert(all.take(i as int) =~= all);
    r
}

/// The requests other than the one with the identifier.
pub fn drop_request<T: Pending>(requests: &Vec<T>, id: &str) -> (r: Vec<T>)
    ensures
        contents(r@) == without_request::<T>(contents(requests@), id@),
{
    let ghost all = contents(requests@);
    let mut r: Vec<T> = Vec::new();
    let mut i: usize = 0;
    assert(contents(r@) =~= Seq::empty());
    while i < requests.len()
        invariant
            i <= requests@.len(),
            all == contents(requests@),
            contents(r@) == without_request::<T>(all.take(i as int), id@),
        decreases requests@.len() - i,
    {
        let ghost done = contents(r@);
        proof {
            assert(all.take(i as int + 1).drop_last() =~= all.take(i as int));
            assert(all.take(i as int + 1).last() == requests@[i as int].content());
        }
        if !same(requests[i].request(), id) {
            r.push(requests[i].copy());
            assert(contents(r@) =~= done.push(requests@[i as int].content()));
        }
        i = i + 1;
    }
    assert(all.take(i as int) =~= all);
    r
}

/// The first request of a session.
pub fn find_for_session<'a, T: Pending>(requests: &'a Vec<T>, session: &str) -> (r: Option<&'a T>)
    ensures
        opt_ref_content(r) == first_of_session::<T>(contents(requests@), session@),
{
    let ghost all = contents(requests@);
    let mut i: usize = 0;
    assert(all.skip(0) =~= all);
    while i < requests.len()
        invariant
            i <= requests@.len(),
            all == contents(requests@),
            first_of_session::<T>(all, session@) == first_of_session::<T>(
                all.skip(i as int),
                session@,
            ),
        decreases requests@.len() - i,
    {
        assert(all.skip(i as int)[0] == requests@[i as int].content());
        assert(all.skip(i as int).skip(1) =~= all.skip(i as int + 1));
        if same(requests[i].session(), session) {
            return Some(&requests[i]);
        }
        i = i + 1;
    }
    None
}

/// The first request with an identifier.
pub fn find_request<'a, T: Pending>(requests: &'a Vec<T>, id: &str) -> (r: Option<&'a T>)
    ensures
        opt_ref_content(r) == request_with_id::<T>(contents(requests@), id@),
{
    let ghost all = contents(requests@);
    let mut i: usize = 0;
    assert(all.skip(0) =~= all);
    while i < requests.len()
        invariant
            i <= requests@.len(),
            all == contents(requests@),
            request_with_id::<T>(all, id@) == request_with_id::<T>(all.skip(i as int), id@),
        decreases requests@.len() - i,
    {
        assert(all.skip(i as int)[0] == requests@[i as int].content());
        assert(all.skip(i as int).skip(1) =~= all.skip(i as int + 1));
        if same(requests[i].request(), id) {
            return Some(&requests[i]);
        }
        i = i + 1;
    }
    None
}

/// A request that was dropped is not among those that are left.
pub proof fn law_dropped_request_is_gone<T: Pending>(requests: Seq<T::Model>, id: Seq<char>)
    ensures
        forall|i: int|
            0 <= i < without_request::<T>(requests, id).len() ==> T::request_of(
                #[trigger] without_request::<T>(requests, id)[i],
            ) != id,
    decreases requests.len(),
{
    if requests.len() > 0 {
        let before = without_request::<T>(requests.drop_last(), id);
        let all = without_request::<T>(requests, id);
        law_dropped_request_is_gone::<T>(requests.drop_last(), id);
        assert forall|i: int| 0 <= i < all.len() implies T::request_of(#[trigger] all[i]) != id by {
            if i < before.len() {
                assert(all[i] == before[i]);
            }
        }
    }
}

/// What is sorted out for a session is all of that session.
pub proof fn law_sorted_out_by_session<T: Pending>(
    requests: Seq<T::Model>,
    session: Seq<char>,
    of_session: bool,
)
    ensures
        forall|i: int|
            0 <= i < sorted_out::<T>(requests, session, of_session).len() ==> (T::session_of(
                #[trigger] sorted_out::<T>(requests, session, of_session)[i],
            ) == session) == of_session,
        sorted_out::<T>(requests, session, of_session).len() <= requests.len(),
    decreases requests.len(),
{
    if requests.len() > 0 {
        law_sorted_out_by_session::<T>(requests.drop_last(), session, of_session);
    }
}

} // verus!
