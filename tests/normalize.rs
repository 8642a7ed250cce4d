use fourchan::{
    check_status, int_to_bool, Attachment, AttachmentPre, Board, BoardPre, BoardsPre, Capcode,
    Catalog, CatalogPre, Cooldowns, DecodeError, Error, Page, PagePre, Post, PostPre, RawFlag,
    Thread, ThreadInfo, ThreadInfoPre, ThreadPost, ThreadPre,
};

fn no_attachment() -> AttachmentPre {
    AttachmentPre {
        id: None,
        filename: None,
        ext: None,
        size: None,
        md5: None,
        width: None,
        height: None,
        thumbnail_width: None,
        thumbnail_height: None,
        spoiler: None,
        mobile_optimized: None,
    }
}

fn full_attachment() -> AttachmentPre {
    AttachmentPre {
        id: Some(1546293948883),
        filename: Some("cover".to_string()),
        ext: Some(".jpg".to_string()),
        size: Some(264535),
        md5: Some("sH9DwS8wa1Yj1NYzl0mcdA==".to_string()),
        width: Some(1024),
        height: Some(768),
        thumbnail_width: Some(250),
        thumbnail_height: Some(187),
        spoiler: Some(RawFlag::Int(1)),
        mobile_optimized: Some(RawFlag::Int(0)),
    }
}

fn raw_post(no: u32, resto: u32) -> PostPre {
    PostPre {
        no,
        resto,
        now: "01/01/19(Tue)12:00:00".to_string(),
        time: 1546362000,
        author: Some("Anonymous".to_string()),
        trip: None,
        author_id: None,
        capcode: None,
        country: None,
        country_name: None,
        board_flag: None,
        flag_name: None,
        comment: Some(format!("post {}", no)),
        attachment: no_attachment(),
        file_deleted: None,
        since_4pass: None,
    }
}

fn thread_post(pre: PostPre) -> ThreadPost {
    ThreadPost { sticky: None, closed: None, subject: None, unique_ips: None, post: pre }
}

fn raw_info(no: u32) -> ThreadInfoPre {
    ThreadInfoPre {
        op_post: raw_post(no, 0),
        last_replies: None,
        sticky: None,
        closed: None,
        subject: None,
        posts_omitted: None,
        images_omitted: None,
        n_replies: 3,
        n_images: None,
        bump_limit_reached: None,
        image_limit_reached: None,
        last_modified: 1546362999,
        semantic_url: format!("thread-{}", no),
    }
}

#[test]
fn attachment_with_all_keys_is_complete() {
    let a = Attachment::from_pre(&full_attachment()).unwrap().unwrap();
    assert_eq!(a.id, 1546293948883);
    assert_eq!(a.filename, "cover");
    assert_eq!(a.ext, ".jpg");
    assert_eq!(a.size, 264535);
    assert_eq!(a.md5, "sH9DwS8wa1Yj1NYzl0mcdA==");
    assert_eq!(a.width, 1024);
    assert_eq!(a.height, 768);
    assert_eq!(a.thumbnail_width, 250);
    assert_eq!(a.thumbnail_height, 187);
    assert!(a.spoiler);
    assert!(!a.mobile_optimized);
}

#[test]
fn attachment_defaults_absent_numbers_to_zero() {
    let mut pre = no_attachment();
    pre.id = Some(7);
    pre.filename = Some("f".to_string());
    pre.ext = Some(".png".to_string());
    let a = Attachment::from_pre(&pre).unwrap().unwrap();
    assert_eq!(a.size, 0);
    assert_eq!(a.md5, "");
    assert_eq!((a.width, a.height, a.thumbnail_width, a.thumbnail_height), (0, 0, 0, 0));
    assert!(!a.spoiler && !a.mobile_optimized);
}

#[test]
fn attachment_missing_any_key_is_absent() {
    let mut a = full_attachment();
    a.id = None;
    assert_eq!(Attachment::from_pre(&a), Ok(None));
    let mut b = full_attachment();
    b.filename = None;
    assert_eq!(Attachment::from_pre(&b), Ok(None));
    let mut c = full_attachment();
    c.ext = None;
    assert_eq!(Attachment::from_pre(&c), Ok(None));
    assert_eq!(Attachment::from_pre(&no_attachment()), Ok(None));
    let mut d = full_attachment();
    d.ext = None;
    d.spoiler = Some(RawFlag::NotInteger);
    assert_eq!(Attachment::from_pre(&d), Ok(None));
}

#[test]
fn attachment_flag_of_wrong_type_is_mismatch() {
    let mut a = full_attachment();
    a.mobile_optimized = Some(RawFlag::NotInteger);
    assert_eq!(Attachment::from_pre(&a), Err(DecodeError::TypeMismatch));
}

#[test]
fn flag_coercion() {
    assert_eq!(int_to_bool(&RawFlag::Int(0)), Ok(false));
    assert_eq!(int_to_bool(&RawFlag::Int(1)), Ok(true));
    assert_eq!(int_to_bool(&RawFlag::Int(-1)), Ok(true));
    assert_eq!(int_to_bool(&RawFlag::Int(42)), Ok(true));
    assert_eq!(int_to_bool(&RawFlag::Int(i64::MIN as i128)), Ok(true));
    assert_eq!(int_to_bool(&RawFlag::NotInteger), Err(DecodeError::TypeMismatch));
}

#[test]
fn capcode_known_tokens() {
    let cases = [
        ("mod", Capcode::Mod),
        ("admin", Capcode::Admin),
        ("admin_highlight", Capcode::AdminHighlight),
        ("manager", Capcode::Manager),
        ("developer", Capcode::Developer),
        ("founder", Capcode::Founder),
    ];
    for (token, expected) in cases {
        assert_eq!(Capcode::parse(&token.to_string()), Ok(expected));
    }
}

#[test]
fn capcode_unknown_token() {
    assert_eq!(
        Capcode::parse(&"admins".to_string()),
        Err(DecodeError::UnknownCapcode("admins".to_string()))
    );
    assert_eq!(
        Capcode::parse(&"".to_string()),
        Err(DecodeError::UnknownCapcode("".to_string()))
    );
    assert_eq!(
        Capcode::parse(&"Mod".to_string()),
        Err(DecodeError::UnknownCapcode("Mod".to_string()))
    );
}

#[test]
fn post_copies_and_renames_fields() {
    let mut pre = raw_post(12, 10);
    pre.capcode = Some("admin".to_string());
    pre.trip = Some("!abc".to_string());
    pre.file_deleted = Some(RawFlag::Int(1));
    pre.since_4pass = Some(2016);
    pre.attachment = full_attachment();
    let p = Post::from_pre(&pre).unwrap();
    assert_eq!(p.no, 12);
    assert_eq!(p.resto, 10);
    assert_eq!(p.author, "Anonymous");
    assert_eq!(p.trip.as_deref(), Some("!abc"));
    assert_eq!(p.capcode, Some(Capcode::Admin));
    assert_eq!(p.comment.as_deref(), Some("post 12"));
    assert!(p.file_deleted);
    assert_eq!(p.since_4pass, Some(2016));
    assert_eq!(p.attachment.unwrap().id, 1546293948883);
}

#[test]
fn post_defaults() {
    let mut pre = raw_post(5, 0);
    pre.author = None;
    let p = Post::from_pre(&pre).unwrap();
    assert_eq!(p.author, "");
    assert!(!p.file_deleted);
    assert_eq!(p.capcode, None);
    assert!(p.attachment.is_none());
}

#[test]
fn post_deleted_file_without_attachment() {
    let mut pre = raw_post(5, 1);
    pre.file_deleted = Some(RawFlag::Int(1));
    let p = Post::from_pre(&pre).unwrap();
    assert!(p.file_deleted);
    assert!(p.attachment.is_none());
    assert_eq!(p.attachment_url("mu"), None);
    assert_eq!(p.thumbnail_url("mu"), None);
}

#[test]
fn post_without_attachment_keys_normalizes() {
    let mut pre = raw_post(5, 0);
    pre.attachment = full_attachment();
    pre.attachment.filename = None;
    pre.capcode = Some("founder".to_string());
    let p = Post::from_pre(&pre).unwrap();
    assert!(p.attachment.is_none());
    assert_eq!(p.capcode, Some(Capcode::Founder));
}

#[test]
fn post_errors() {
    let mut pre = raw_post(5, 0);
    pre.capcode = Some("janitor".to_string());
    assert_eq!(Post::from_pre(&pre), Err(DecodeError::UnknownCapcode("janitor".to_string())));
    let mut pre = raw_post(5, 0);
    pre.file_deleted = Some(RawFlag::NotInteger);
    assert_eq!(Post::from_pre(&pre), Err(DecodeError::TypeMismatch));
}

#[test]
fn attachment_urls() {
    let mut pre = raw_post(5, 0);
    pre.attachment = full_attachment();
    let p = Post::from_pre(&pre).unwrap();
    assert_eq!(
        p.attachment_url("mu").as_deref(),
        Some("https://i.4cdn.org/mu/1546293948883.jpg")
    );
    assert_eq!(
        p.thumbnail_url("mu").as_deref(),
        Some("https://i.4cdn.org/mu/1546293948883s.jpg")
    );
    let a = p.attachment.unwrap();
    assert_eq!(a.url("g"), "https://i.4cdn.org/g/1546293948883.jpg");
    assert_eq!(a.thumbnail_url("g"), "https://i.4cdn.org/g/1546293948883s.jpg");
}

#[test]
fn attachment_url_of_small_and_large_ids() {
    let mut pre = full_attachment();
    pre.id = Some(0);
    let a = Attachment::from_pre(&pre).unwrap().unwrap();
    assert_eq!(a.url("a"), "https://i.4cdn.org/a/0.jpg");
    pre.id = Some(u64::MAX);
    let b = Attachment::from_pre(&pre).unwrap().unwrap();
    assert_eq!(b.url("a"), "https://i.4cdn.org/a/18446744073709551615.jpg");
    pre.id = Some(10);
    let c = Attachment::from_pre(&pre).unwrap().unwrap();
    assert_eq!(c.thumbnail_url("a"), "https://i.4cdn.org/a/10s.jpg");
}

#[test]
fn thread_from_empty_list_fails() {
    let pre = ThreadPre { posts: vec![] };
    assert_eq!(Thread::from_pre(&pre), Err(DecodeError::EmptyThread));
}

#[test]
fn thread_from_op_and_two_replies() {
    let mut op = thread_post(raw_post(100, 0));
    op.sticky = Some(RawFlag::Int(1));
    op.closed = Some(RawFlag::Int(0));
    op.subject = Some("Welcome".to_string());
    op.unique_ips = Some(2);
    let pre = ThreadPre {
        posts: vec![op, thread_post(raw_post(101, 100)), thread_post(raw_post(102, 100))],
    };
    let t = Thread::from_pre(&pre).unwrap();
    assert_eq!(t.posts.len(), 3);
    assert_eq!(t.posts[0].resto, 0);
    assert_eq!(t.no, 100);
    assert!(t.sticky);
    assert!(!t.closed);
    assert_eq!(t.subject.as_deref(), Some("Welcome"));
    assert_eq!(t.unique_posters, 2);
    let nos: Vec<u32> = t.posts.iter().map(|p| p.no).collect();
    assert_eq!(nos, vec![100, 101, 102]);
}

#[test]
fn thread_fields_come_from_first_record_only() {
    let mut reply = thread_post(raw_post(101, 100));
    reply.sticky = Some(RawFlag::Int(1));
    reply.subject = Some("ignored".to_string());
    reply.unique_ips = Some(9);
    let pre = ThreadPre { posts: vec![thread_post(raw_post(100, 0)), reply] };
    let t = Thread::from_pre(&pre).unwrap();
    assert!(!t.sticky);
    assert_eq!(t.subject, None);
    assert_eq!(t.unique_posters, 0);
}

#[test]
fn thread_with_malformed_reply_flag_fails() {
    let mut reply = thread_post(raw_post(101, 100));
    reply.sticky = Some(RawFlag::NotInteger);
    let pre = ThreadPre { posts: vec![thread_post(raw_post(100, 0)), reply] };
    assert_eq!(Thread::from_pre(&pre), Err(DecodeError::TypeMismatch));
    let mut reply = thread_post(raw_post(102, 100));
    reply.closed = Some(RawFlag::NotInteger);
    let pre = ThreadPre { posts: vec![thread_post(raw_post(100, 0)), reply] };
    assert_eq!(Thread::from_pre(&pre), Err(DecodeError::TypeMismatch));
}

#[test]
fn thread_with_bad_reply_fails() {
    let mut bad = raw_post(101, 100);
    bad.capcode = Some("admins".to_string());
    let pre = ThreadPre { posts: vec![thread_post(raw_post(100, 0)), thread_post(bad)] };
    assert_eq!(Thread::from_pre(&pre), Err(DecodeError::UnknownCapcode("admins".to_string())));
}

#[test]
fn thread_info_defaults_and_number() {
    let info = ThreadInfo::from_pre(&raw_info(55)).unwrap();
    assert_eq!(info.thread_no(), 55);
    assert!(info.last_replies.is_empty());
    assert!(!info.sticky && !info.closed);
    assert_eq!((info.posts_omitted, info.images_omitted, info.n_images), (0, 0, 0));
    assert_eq!(info.n_replies, 3);
    assert!(!info.bump_limit_reached && !info.image_limit_reached);
    assert_eq!(info.last_modified, 1546362999);
    assert_eq!(info.semantic_url, "thread-55");
}

#[test]
fn thread_info_copies_counters_and_replies() {
    let mut pre = raw_info(60);
    pre.last_replies = Some(vec![raw_post(61, 60), raw_post(62, 60)]);
    pre.sticky = Some(RawFlag::Int(1));
    pre.posts_omitted = Some(4);
    pre.images_omitted = Some(1);
    pre.n_images = Some(2);
    pre.bump_limit_reached = Some(RawFlag::Int(1));
    pre.image_limit_reached = Some(RawFlag::Int(0));
    pre.subject = Some("Topic".to_string());
    let info = ThreadInfo::from_pre(&pre).unwrap();
    let nos: Vec<u32> = info.last_replies.iter().map(|p| p.no).collect();
    assert_eq!(nos, vec![61, 62]);
    assert!(info.sticky);
    assert_eq!((info.posts_omitted, info.images_omitted, info.n_images), (4, 1, 2));
    assert!(info.bump_limit_reached && !info.image_limit_reached);
    assert_eq!(info.subject.as_deref(), Some("Topic"));
}

#[test]
fn thread_info_bad_flag_fails() {
    let mut pre = raw_info(60);
    pre.image_limit_reached = Some(RawFlag::NotInteger);
    assert_eq!(ThreadInfo::from_pre(&pre), Err(DecodeError::TypeMismatch));
}

#[test]
fn catalog_keeps_page_and_thread_order() {
    let pre = CatalogPre(vec![
        PagePre { page: 1, threads: vec![raw_info(30), raw_info(10), raw_info(20)] },
        PagePre { page: 2, threads: vec![raw_info(5), raw_info(40)] },
    ]);
    let Catalog(pages) = Catalog::from_pre(&pre).unwrap();
    assert_eq!(pages.len(), 2);
    assert_eq!(pages[0].page, 1);
    assert_eq!(pages[1].page, 2);
    let first: Vec<u32> = pages[0].threads.iter().map(|t| t.thread_no()).collect();
    let second: Vec<u32> = pages[1].threads.iter().map(|t| t.thread_no()).collect();
    assert_eq!(first, vec![30, 10, 20]);
    assert_eq!(second, vec![5, 40]);
}

#[test]
fn catalog_page_from_raw() {
    let page = Page::from_pre(&PagePre { page: 7, threads: vec![] }).unwrap();
    assert_eq!(page.page, 7);
    assert!(page.threads.is_empty());
    assert_eq!(Catalog::from_pre(&CatalogPre(vec![])), Ok(Catalog(vec![])));
}

#[test]
fn normalizing_twice_gives_equal_values() {
    let pre = CatalogPre(vec![
        PagePre { page: 1, threads: vec![raw_info(30), raw_info(10)] },
        PagePre { page: 2, threads: vec![raw_info(5)] },
    ]);
    assert_eq!(Catalog::from_pre(&pre), Catalog::from_pre(&pre));
    let t = ThreadPre { posts: vec![thread_post(raw_post(1, 0)), thread_post(raw_post(2, 1))] };
    assert_eq!(Thread::from_pre(&t), Thread::from_pre(&t));
}

#[test]
fn status_outside_success_class_is_status_error() {
    for code in [404u16, 500, 301, 199, 300, 100] {
        match check_status(code) {
            Err(Error::StatusCode(c)) => assert_eq!(c, code),
            other => panic!("unexpected {:?}", other),
        }
    }
    for code in [200u16, 204, 299] {
        assert!(check_status(code).is_ok());
    }
}

#[test]
fn decode_errors_convert() {
    let e: Error = DecodeError::EmptyThread.into();
    assert!(matches!(e, Error::Decode(DecodeError::EmptyThread)));
    let j = serde_json::from_str::<serde_json::Value>("{").unwrap_err();
    let e: Error = j.into();
    assert!(matches!(e, Error::Json(_)));
    assert!(matches!(Error::status_code(503), Error::StatusCode(503)));
}

fn raw_board(is_sfw: Option<RawFlag>) -> BoardPre {
    BoardPre {
        title: "Music".to_string(),
        abv: "mu".to_string(),
        meta_description: "music".to_string(),
        is_archived: Some(RawFlag::Int(1)),
        is_sfw,
        per_page: 15,
        pages: 10,
        max_filesize: 4194304,
        max_webm_filesize: 3145728,
        max_comment_chars: 2000,
        max_webm_duration: 120,
        bump_limit: 300,
        image_limit: 150,
        cooldowns: Cooldowns { threads: 600, replies: 60, images: 60 },
    }
}

#[test]
fn boards_from_raw() {
    let b = Board::from_pre(&raw_board(None)).unwrap();
    assert_eq!(b.abv, "mu");
    assert!(b.is_archived);
    assert!(!b.is_sfw);
    assert_eq!(b.cooldowns.replies, 60);
    let list = Board::list_from_pre(&BoardsPre {
        boards: vec![raw_board(Some(RawFlag::Int(1))), raw_board(None)],
    })
    .unwrap();
    assert_eq!(list.len(), 2);
    assert!(list[0].is_sfw && !list[1].is_sfw);
    assert_eq!(
        Board::list_from_pre(&BoardsPre { boards: vec![raw_board(Some(RawFlag::NotInteger))] }),
        Err(DecodeError::TypeMismatch)
    );
}

#[test]
fn endpoint_urls() {
    assert_eq!(fourchan::boards_url(), "https://a.4cdn.org/boards.json");
    assert_eq!(fourchan::catalog_url("mu"), "https://a.4cdn.org/mu/catalog.json");
    assert_eq!(fourchan::thread_url("mu", 12345), "https://a.4cdn.org/mu/thread/12345");
    assert_eq!(fourchan::thread_url("g", 0), "https://a.4cdn.org/g/thread/0");
}

#[test]
fn posts_in_order() {
    let ps = fourchan::posts_from_pre(&vec![raw_post(3, 1), raw_post(2, 1)]).unwrap();
    assert_eq!(ps.iter().map(|p| p.no).collect::<Vec<_>>(), vec![3, 2]);
}

#[test]
fn error_messages() {
    assert_eq!(
        Error::StatusCode(404).message(),
        "status code is not success: server returned 404 Not Found"
    );
    assert_eq!(
        Error::StatusCode(503).message(),
        "status code is not success: server returned 503 Service Unavailable"
    );
    assert_eq!(
        Error::StatusCode(999).message(),
        "status code is not success: server returned 999 <unknown status code>"
    );
    assert_eq!(
        Error::StatusCode(42).message(),
        "status code is not success: server returned 42 <unknown status code>"
    );
    assert_eq!(
        Error::Decode(DecodeError::UnknownCapcode("admins".to_string())).message(),
        "admins is not a valid capcode"
    );
    assert_eq!(DecodeError::EmptyThread.message(), "the thread has no posts");
    assert_eq!(DecodeError::TypeMismatch.message(), "expected an integer");
    let j = serde_json::from_str::<serde_json::Value>("{").unwrap_err();
    let text = j.to_string();
    assert_eq!(Error::Json(j).message(), text);
}
