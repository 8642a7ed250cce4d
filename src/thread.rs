use vstd::prelude::*;

use crate::error::DecodeError;
use crate::post::{
    clone_opt, i32_or_zero, opt_view, or_zero_i32, res_view, spec_post, Post, PostPre, PostView,
};
use crate::wire::{opt_flag, spec_opt_flag, RawFlag};

verus! {

/// Normalizes each record in order; the first failure is the result.
pub open spec fn spec_posts(s: Seq<PostPre>) -> Result<Seq<PostView>, DecodeError>
    decreases s.len(),
{
    if s.len() == 0 {
        Ok(Seq::empty())
    } else {
        match spec_posts(s.drop_last()) {
            Err(e) => Err(e),
            Ok(ps) => match spec_post(s.last()) {
                Err(e) => Err(e),
                Ok(p) => Ok(ps.push(p)),
            },
        }
    }
}

pub open spec fn post_views(s: Seq<Post>) -> Seq<PostView> {
    s.map_values(|p: Post| p@)
}

/// A failure in a prefix is the failure of the whole sequence.
proof fn lemma_posts_err_prefix(s: Seq<PostPre>, k: int)
    requires
        0 <= k <= s.len(),
        spec_posts(s.take(k)) is Err,
    ensures
        spec_posts(s) == spec_posts(s.take(k)),
    decreases s.len() - k,
{
    if k < s.len() {
        assert(s.take(k + 1).drop_last() =~= s.take(k));
        lemma_posts_err_prefix(s, k + 1);
    } else {
        assert(s.take(k) =~= s);
    }
}

/// Normalizes a sequence of raw posts, keeping their order.
pub fn posts_from_pre(pres: &Vec<PostPre>) -> (r: Result<Vec<Post>, DecodeError>)
    ensures
        match r {
            Ok(v) => spec_posts(pres@) == Ok::<Seq<PostView>, DecodeError>(post_views(v@)),
            Err(e) => spec_posts(pres@) == Err::<Seq<PostView>, DecodeError>(e),
        },
{
    let mut out: Vec<Post> = Vec::new();
    let mut i: usize = 0;
    assert(pres@.take(0) =~= Seq::<PostPre>::empty());
    assert(post_views(out@) =~= Seq::<PostView>::empty());
    while i < pres.len()
        invariant
            i <= pres@.len(),
            spec_posts(pres@.take(i as int)) == Ok::<Seq<PostView>, DecodeError>(post_views(out@)),
        decreases pres@.len() - i,
    {
        assert(pres@.take(i as int + 1).drop_last() =~= pres@.take(i as int));
        assert(pres@.take(i as int + 1).last() == pres@[i as int]);
        let ghost before = out@;
        match Post::from_pre(&pres[i]) {
            Ok(p) => {
                out.push(p);
                assert(post_views(out@) =~= post_views(before).push(p@));
            },
            Err(e) => {
                proof {
                    lemma_posts_err_prefix(pres@, i as int + 1);
                }
                return Err(e);
            },
        }
        i = i + 1;
    }
    assert(pres@.take(i as int) =~= pres@);
    Ok(out)
}

/// A thread as a catalog lists it: the opening post and its latest replies.
#[derive(Debug, Clone, PartialEq)]
pub struct ThreadInfo {
    /// The opening post.
    pub op_post: Post,
    /// The latest replies, oldest first; may be empty.
    pub last_replies: Vec<Post>,
    /// Pinned to the top of the board.
    pub sticky: bool,
    /// Closed to replies.
    pub closed: bool,
    /// The thread's subject, if any.
    pub subject: Option<String>,
    /// Replies left out of `last_replies`.
    pub posts_omitted: i32,
    /// Images left out of `last_replies`.
    pub images_omitted: i32,
    /// Total replies.
    pub n_replies: i32,
    /// Total images.
    pub n_images: i32,
    pub bump_limit_reached: bool,
    pub image_limit_reached: bool,
    /// UNIX time of the last change.
    pub last_modified: u64,
    /// SEO slug of the thread.
    pub semantic_url: String,
}

/// The model of a `ThreadInfo`.
pub struct ThreadInfoView {
    pub op_post: PostView,
    pub last_replies: Seq<PostView>,
    pub sticky: bool,
    pub closed: bool,
    pub subject: Option<Seq<char>>,
    pub posts_omitted: i32,
    pub images_omitted: i32,
    pub n_replies: i32,
    pub n_images: i32,
    pub bump_limit_reached: bool,
    pub image_limit_reached: bool,
    pub last_modified: u64,
    pub semantic_url: Seq<char>,
}

impl View for ThreadInfo {
    type V = ThreadInfoView;

    open spec fn view(&self) -> ThreadInfoView {
        ThreadInfoView {
            op_post: self.op_post@,
            last_replies: post_views(self.last_replies@),
            sticky: self.sticky,
            closed: self.closed,
            subject: opt_view(self.subject),
            posts_omitted: self.posts_omitted,
            images_omitted: self.images_omitted,
            n_replies: self.n_replies,
            n_images: self.n_images,
            bump_limit_reached: self.bump_limit_reached,
            image_limit_reached: self.image_limit_reached,
            last_modified: self.last_modified,
            semantic_url: self.semantic_url@,
        }
    }
}

/// A raw catalog thread record: the opening post's keys, flattened, beside the
/// thread's own.
#[derive(Debug, Clone, PartialEq)]
pub struct ThreadInfoPre {
    pub op_post: PostPre,
    pub last_replies: Option<Vec<PostPre>>,
    pub sticky: Option<RawFlag>,
    pub closed: Option<RawFlag>,
    pub subject: Option<String>,
    pub posts_omitted: Option<i32>,
    pub images_omitted: Option<i32>,
    pub n_replies: i32,
    pub n_images: Option<i32>,
    pub bump_limit_reached: Option<RawFlag>,
    pub image_limit_reached: Option<RawFlag>,
    pub last_modified: u64,
    pub semantic_url: String,
}

/// The raw replies of a catalog record; none when the key is absent.
pub open spec fn reply_pres(v: Option<Vec<PostPre>>) -> Seq<PostPre> {
    match v {
        Some(r) => r@,
        None => Seq::empty(),
    }
}

/// The catalog thread a raw record describes. The opening post is checked
/// first, then the replies, then the flags in field order; the first failure is
/// the result. Absent counts read as zero, absent flags as false.
pub open spec fn spec_thread_info(pre: ThreadInfoPre) -> Result<ThreadInfoView, DecodeError> {
    match spec_post(pre.op_post) {
        Err(e) => Err(e),
        Ok(op_post) => match spec_posts(reply_pres(pre.last_replies)) {
            Err(e) => Err(e),
            Ok(last_replies) => match spec_opt_flag(pre.sticky) {
                Err(e) => Err(e),
                Ok(sticky) => match spec_opt_flag(pre.closed) {
                    Err(e) => Err(e),
                    Ok(closed) => match spec_opt_flag(pre.bump_limit_reached) {
                        Err(e) => Err(e),
                        Ok(bump_limit_reached) => match spec_opt_flag(pre.image_limit_reached) {
                            Err(e) => Err(e),
                            Ok(image_limit_reached) => Ok(
                                ThreadInfoView {
                                    op_post,
                                    last_replies,
                                    sticky,
                                    closed,
                                    subject: opt_view(pre.subject),
                                    posts_omitted: or_zero_i32(pre.posts_omitted),
                                    images_omitted: or_zero_i32(pre.images_omitted),
                                    n_replies: pre.n_replies,
                                    n_images: or_zero_i32(pre.n_images),
                                    bump_limit_reached,
                                    image_limit_reached,
                                    last_modified: pre.last_modified,
                                    semantic_url: pre.semantic_url@,
                                },
                            ),
                        },
                    },
                },
            },
        },
    }
}

impl ThreadInfo {
    /// Builds a catalog thread from its raw record.
    pub fn from_pre(pre: &ThreadInfoPre) -> (r: Result<ThreadInfo, DecodeError>)
        ensures
            res_view(r) == spec_thread_info(*pre),
    {
        let op_post = match Post::from_pre(&pre.op_post) {
            Ok(p) => p,
            Err(e) => return Err(e),
        };
        let last_replies = match &pre.last_replies {
            Some(v) => match posts_from_pre(v) {
                Ok(ps) => ps,
                Err(e) => return Err(e),
            },
            None => {
                proof {
                    assert(reply_pres(pre.last_replies) =~= Seq::<PostPre>::empty());
                }
                let ps: Vec<Post> = Vec::new();
                assert(post_views(ps@) =~= Seq::<PostView>::empty());
                ps
            },
        };
        let sticky = match opt_flag(&pre.sticky) {
            Ok(b) => b,
            Err(e) => return Err(e),
        };
        let closed = match opt_flag(&pre.closed) {
            Ok(b) => b,
            Err(e) => return Err(e),
        };
        let bump_limit_reached = match opt_flag(&pre.bump_limit_reached) {
            Ok(b) => b,
            Err(e) => return Err(e),
        };
        let image_limit_reached = match opt_flag(&pre.image_limit_reached) {
            Ok(b) => b,
            Err(e) => return Err(e),
        };
        Ok(
            ThreadInfo {
                op_post,
                last_replies,
                sticky,
                closed,
                subject: clone_opt(&pre.subject),
                posts_omitted: i32_or_zero(pre.posts_omitted),
                images_omitted: i32_or_zero(pre.images_omitted),
                n_replies: pre.n_replies,
                n_images: i32_or_zero(pre.n_images),
                bump_limit_reached,
                image_limit_reached,
                last_modified: pre.last_modified,
                semantic_url: pre.semantic_url.clone(),
            },
        )
    }

    /// The thread's number, which is its opening post's number.
    pub fn thread_no(&self) -> (r: u32)
        ensures
            r == self.op_post.no,
    {
        self.op_post.no
    }
}

/// A thread with every post in it.
#[derive(Debug, Clone, PartialEq)]
pub struct Thread {
    /// The thread's number: its opening post's.
    pub no: u32,
    pub sticky: bool,
    pub closed: bool,
    pub subject: Option<String>,
    /// Number of distinct posters.
    pub unique_posters: i32,
    /// Every post, the opening post first.
    pub posts: Vec<Post>,
}

/// The model of a `Thread`.
pub struct ThreadView {
    pub no: u32,
    pub sticky: bool,
    pub closed: bool,
    pub subject: Option<Seq<char>>,
    pub unique_posters: i32,
    pub posts: Seq<PostView>,
}

impl View for Thread {
    type V = ThreadView;

    open spec fn view(&self) -> ThreadView {
        ThreadView {
            no: self.no,
            sticky: self.sticky,
            closed: self.closed,
            subject: opt_view(self.subject),
            unique_posters: self.unique_posters,
            posts: post_views(self.posts@),
        }
    }
}

/// One record of a full thread's post list: a post, and the thread-level keys
/// that only the first record carries.
#[derive(Debug, Clone, PartialEq)]
pub struct ThreadPost {
    pub sticky: Option<RawFlag>,
    pub closed: Option<RawFlag>,
    pub subject: Option<String>,
    pub unique_ips: Option<i32>,
    pub post: PostPre,
}

/// The raw body of a full thread: its records, the opening post first.
#[derive(Debug, Clone, PartialEq)]
pub struct ThreadPre {
    pub posts: Vec<ThreadPost>,
}

/// One record of a full thread as a post. Every record's flags must be
/// integers or absent, whichever record the thread takes its own flags from;
/// they are checked before the post itself.
pub open spec fn spec_thread_record(t: ThreadPost) -> Result<PostView, DecodeError> {
    match spec_opt_flag(t.sticky) {
        Err(e) => Err(e),
        Ok(_) => match spec_opt_flag(t.closed) {
            Err(e) => Err(e),
            Ok(_) => spec_post(t.post),
        },
    }
}

/// Turns each record into a post in order; the first failure is the result.
pub open spec fn spec_thread_posts(s: Seq<ThreadPost>) -> Result<Seq<PostView>, DecodeError>
    decreases s.len(),
{
    if s.len() == 0 {
        Ok(Seq::empty())
    } else {
        match spec_thread_posts(s.drop_last()) {
            Err(e) => Err(e),
            Ok(ps) => match spec_thread_record(s.last()) {
                Err(e) => Err(e),
                Ok(p) => Ok(ps.push(p)),
            },
        }
    }
}

proof fn lemma_thread_posts_err_prefix(s: Seq<ThreadPost>, k: int)
    requires
        0 <= k <= s.len(),
        spec_thread_posts(s.take(k)) is Err,
    ensures
        spec_thread_posts(s) == spec_thread_posts(s.take(k)),
    decreases s.len() - k,
{
    if k < s.len() {
        assert(s.take(k + 1).drop_last() =~= s.take(k));
        lemma_thread_posts_err_prefix(s, k + 1);
    } else {
        assert(s.take(k) =~= s);
    }
}

proof fn lemma_thread_posts_ok(s: Seq<ThreadPost>)
    requires
        spec_thread_posts(s) is Ok,
    ensures
        spec_thread_posts(s)->Ok_0.len() == s.len(),
        forall|i: int|
            0 <= i < s.len() ==> spec_thread_record(#[trigger] s[i]) == Ok::<PostView, DecodeError>(
                spec_thread_posts(s)->Ok_0[i],
            ),
    decreases s.len(),
{
    if s.len() > 0 {
        lemma_thread_posts_ok(s.drop_last());
        assert forall|i: int| 0 <= i < s.len() implies spec_thread_record(#[trigger] s[i]) == Ok::<
            PostView,
            DecodeError,
        >(spec_thread_posts(s)->Ok_0[i]) by {
            if i < s.len() - 1 {
                assert(s.drop_last()[i] == s[i]);
            }
        }
    }
}

/// The thread a record list describes. An empty list has no opening post and
/// is refused. Otherwise the thread-level fields come from the first record
/// alone (its flags checked first), and every record becomes a post, in order.
pub open spec fn spec_thread(s: Seq<ThreadPost>) -> Result<ThreadView, DecodeError> {
    if s.len() == 0 {
        Err(DecodeError::EmptyThread)
    } else {
        let op = s[0];
        match spec_opt_flag(op.sticky) {
            Err(e) => Err(e),
            Ok(sticky) => match spec_opt_flag(op.closed) {
                Err(e) => Err(e),
                Ok(closed) => match spec_thread_posts(s) {
                    Err(e) => Err(e),
                    Ok(posts) => Ok(
                        ThreadView {
                            no: op.post.no,
                            sticky,
                            closed,
                            subject: opt_view(op.subject),
                            unique_posters: or_zero_i32(op.unique_ips),
                            posts,
                        },
                    ),
                },
            },
        }
    }
}

fn thread_record_from_pre(t: &ThreadPost) -> (r: Result<Post, DecodeError>)
    ensures
        res_view(r) == spec_thread_record(*t),
{
    if let Err(e) = opt_flag(&t.sticky) {
        return Err(e);
    }
    if let Err(e) = opt_flag(&t.closed) {
        return Err(e);
    }
    Post::from_pre(&t.post)
}

fn thread_posts_from_pre(pres: &Vec<ThreadPost>) -> (r: Result<Vec<Post>, DecodeError>)
    ensures
        match r {
            Ok(v) => spec_thread_posts(pres@) == Ok::<Seq<PostView>, DecodeError>(post_views(v@)),
            Err(e) => spec_thread_posts(pres@) == Err::<Seq<PostView>, DecodeError>(e),
        },
{
    let mut out: Vec<Post> = Vec::new();
    let mut i: usize = 0;
    assert(pres@.take(0) =~= Seq::<ThreadPost>::empty());
    assert(post_views(out@) =~= Seq::<PostView>::empty());
    while i < pres.len()
        invariant
            i <= pres@.len(),
            spec_thread_posts(pres@.take(i as int)) == Ok::<Seq<PostView>, DecodeError>(
                post_views(out@),
            ),
        decreases pres@.len() - i,
    {
        assert(pres@.take(i as int + 1).drop_last() =~= pres@.take(i as int));
        assert(pres@.take(i as int + 1).last() == pres@[i as int]);
        let ghost before = out@;
        match thread_record_from_pre(&pres[i]) {
            Ok(p) => {
                out.push(p);
                assert(post_views(out@) =~= post_views(before).push(p@));
            },
            Err(e) => {
                proof {
                    lemma_thread_posts_err_prefix(pres@, i as int + 1);
                }
                return Err(e);
            },
        }
        i = i + 1;
    }
    assert(pres@.take(i as int) =~= pres@);
    Ok(out)
}

impl Thread {
    /// Builds a full thread from its record list; an empty list is refused
    /// with `EmptyThread`, and any record whose `sticky` or `closed` is not an
    /// integer with `TypeMismatch`.
    pub fn from_pre(pre: &ThreadPre) -> (r: Result<Thread, DecodeError>)
        ensures
            res_view(r) == spec_thread(pre.posts@),
            pre.posts@.len() == 0 ==> r == Err::<Thread, DecodeError>(DecodeError::EmptyThread),
    {
        if pre.posts.len() == 0 {
            return Err(DecodeError::EmptyThread);
        }
        let op = &pre.posts[0];
        let sticky = match opt_flag(&op.sticky) {
            Ok(b) => b,
            Err(e) => return Err(e),
        };
        let closed = match opt_flag(&op.closed) {
            Ok(b) => b,
            Err(e) => return Err(e),
        };
        let posts = match thread_posts_from_pre(&pre.posts) {
            Ok(ps) => ps,
            Err(e) => return Err(e),
        };
        Ok(
            Thread {
                no: op.post.no,
                sticky,
                closed,
                subject: clone_opt(&op.subject),
                unique_posters: i32_or_zero(op.unique_ips),
                posts,
            },
        )
    }
}

/// A thread built from records keeps one post per record, in their order, and
/// takes its own fields from the first record: an opening post whose raw
/// `resto` is zero leads the posts with `resto` zero. Every record's flags were
/// integers or absent.
pub proof fn lemma_thread_shape(s: Seq<ThreadPost>)
    requires
        spec_thread(s) is Ok,
    ensures
        ({
            let t = spec_thread(s)->Ok_0;
            &&& s.len() > 0
            &&& t.posts.len() == s.len()
            &&& forall|i: int|
                0 <= i < s.len() ==> spec_post(#[trigger] s[i].post) == Ok::<PostView, DecodeError>(
                    t.posts[i],
                )
            &&& forall|i: int|
                0 <= i < s.len() ==> (#[trigger] spec_opt_flag(s[i].sticky)) is Ok && spec_opt_flag(
                    s[i].closed,
                ) is Ok
            &&& forall|i: int| 0 <= i < s.len() ==> #[trigger] t.posts[i].no == s[i].post.no
            &&& forall|i: int| 0 <= i < s.len() ==> #[trigger] t.posts[i].resto == s[i].post.resto
            &&& t.no == s[0].post.no
            &&& spec_opt_flag(s[0].sticky) == Ok::<bool, DecodeError>(t.sticky)
            &&& spec_opt_flag(s[0].closed) == Ok::<bool, DecodeError>(t.closed)
            &&& t.subject == opt_view(s[0].subject)
            &&& t.unique_posters == or_zero_i32(s[0].unique_ips)
            &&& (s[0].post.resto == 0 ==> t.posts[0].resto == 0)
        }),
{
    lemma_thread_posts_ok(s);
    let t = spec_thread(s)->Ok_0;
    assert forall|i: int| 0 <= i < s.len() implies spec_post(#[trigger] s[i].post) == Ok::<
        PostView,
        DecodeError,
    >(t.posts[i]) by {
        assert(spec_thread_record(s[i]) == Ok::<PostView, DecodeError>(t.posts[i]));
    }
    assert forall|i: int| 0 <= i < s.len() implies (#[trigger] spec_opt_flag(s[i].sticky)) is Ok
        && spec_opt_flag(s[i].closed) is Ok by {
        assert(spec_thread_record(s[i]) is Ok);
    }
    assert forall|i: int| 0 <= i < s.len() implies #[trigger] t.posts[i].no == s[i].post.no by {
        assert(spec_thread_record(s[i]) == Ok::<PostView, DecodeError>(t.posts[i]));
    }
    assert forall|i: int| 0 <= i < s.len() implies #[trigger] t.posts[i].resto == s[i].post.resto by {
        assert(spec_thread_record(s[i]) == Ok::<PostView, DecodeError>(t.posts[i]));
    }
}

/// Normalization keeps no state: two builds of a thread from the same records
/// give equal results.
pub proof fn lemma_thread_deterministic(
    pre: ThreadPre,
    a: Result<Thread, DecodeError>,
    b: Result<Thread, DecodeError>,
)
    requires
        res_view(a) == spec_thread(pre.posts@),
        res_view(b) == spec_thread(pre.posts@),
    ensures
        res_view(a) == res_view(b),
{
}

/// Two builds of a catalog thread from the same record give equal results.
pub proof fn lemma_thread_info_deterministic(
    pre: ThreadInfoPre,
    a: Result<ThreadInfo, DecodeError>,
    b: Result<ThreadInfo, DecodeError>,
)
    requires
        res_view(a) == spec_thread_info(pre),
        res_view(b) == spec_thread_info(pre),
    ensures
        res_view(a) == res_view(b),
{
}

} // verus!
