use adda::pages::dashboard_data::dashboard_context;
use adda::pages::fallback_handler::fallback_message;
use adda::pages::helper::{
    bengali_digits, page_limit, paginated_board_threads, paginated_threads, post_id_string,
    post_time_string, rows_to_fetch, serialize_replies, utid, PostTime, Reply, ReplyLight, Thread,
    ThreadLight, REDACTED_COMMENT, REDACTED_SUBJECT,
};

fn time(year: i32, month: u32, day: u32, hour: u32, minute: u32, unix_seconds: i64) -> PostTime {
    PostTime { year, month, day, hour, minute, unix_seconds }
}

fn thread(id: i32, redacted: bool, mtime_seconds: i64) -> Thread {
    Thread {
        id,
        uid: 7,
        subject: "বিষয়".to_string(),
        comment: "মন্তব্য".to_string(),
        board: "b".to_string(),
        ctime: time(2024, 3, 5, 7, 9, 0),
        mtime: time(2024, 3, 6, 23, 59, mtime_seconds),
        redacted,
        reply_count: 4,
    }
}

#[test]
fn bengali_digits_maps_hex_digits() {
    assert_eq!(bengali_digits("0123456789abcdefxyzABC"), "০১২৩৪৫৬৭৮৯কখগঘঙচxyzABC");
}

#[test]
fn bengali_digits_is_idempotent() {
    let once = bengali_digits("12ab");
    assert_eq!(bengali_digits(&once), once);
}

#[test]
fn utid_is_five_bengali_digits_and_stable() {
    let a = utid(7, 10, 123);
    let b = utid(7, 10, 123);
    assert_eq!(a, b);
    assert_eq!(a.chars().count(), 5);
    assert!(a.chars().all(|c| ('০'..='৯').contains(&c)));
}

#[test]
fn post_ids_in_hex() {
    assert_eq!(post_id_string(10), "00a");
    assert_eq!(post_id_string(4096), "1000");
    assert_eq!(post_id_string(-1), "ffffffff");
}

#[test]
fn post_time_like_chrono() {
    assert_eq!(post_time_string(&time(2024, 3, 5, 7, 9, 0)), "2024-03-05 07:09Z");
    assert_eq!(post_time_string(&time(12345, 12, 31, 23, 59, 0)), "+12345-12-31 23:59Z");
    assert_eq!(post_time_string(&time(-5, 1, 1, 0, 0, 0)), "-0005-01-01 00:00Z");
    assert_eq!(post_time_string(&time(42, 1, 1, 0, 0, 0)), "0042-01-01 00:00Z");
}

#[test]
fn thread_into_serializable() {
    let t = thread(10, false, 0).into_serializable(123);
    assert_eq!(t.id, "00a");
    assert_eq!(t.utid, utid(7, 10, 123));
    assert_eq!(t.subject, "বিষয়");
    assert_eq!(t.comment, "মন্তব্য");
    assert_eq!(t.board, "b");
    assert_eq!(t.ctime, "2024-03-05 07:09Z");
    assert_eq!(t.mtime, "2024-03-06 23:59Z");
    assert_eq!(t.reply_count, 4);
    assert!(!t.redacted);
}

#[test]
fn redacted_thread_hides_content() {
    let t = thread(10, true, 0).into_serializable(123);
    assert_eq!(t.subject, "স#ম্পা#দি#ত");
    assert_eq!(t.comment, "<del>###সম্পাদিত###</del>");
    assert_eq!(REDACTED_SUBJECT, t.subject);
    assert_eq!(REDACTED_COMMENT, t.comment);
    assert!(t.redacted);
}

#[test]
fn replies_serialized() {
    let r = Reply {
        id: 0x20,
        uid: 7,
        tid: 0x1f,
        comment: "hi".to_string(),
        ctime: time(2024, 3, 5, 7, 9, 0),
        redacted: true,
    };
    let shown = serialize_replies(vec![r], 9);
    assert_eq!(shown.len(), 1);
    assert_eq!(shown[0].id, "020");
    assert_eq!(shown[0].tid, "01f");
    assert_eq!(shown[0].utid, utid(7, 0x1f, 9));
    assert_eq!(shown[0].comment, "<del>###সম্পাদিত###</del>");
}

#[test]
fn light_posts_for_moderation() {
    let t = ThreadLight {
        id: 0x1f,
        uid: 1,
        subject: "s".to_string(),
        comment: "c".to_string(),
        ctime: time(2024, 3, 5, 7, 9, 0),
        redacted: false,
    }
    .into_serializable(1);
    assert_eq!(t.tid, None);
    assert_eq!(t.subject, "s");
    let r = ReplyLight {
        id: 0x20,
        uid: 1,
        tid: 0xf,
        comment: "c".to_string(),
        ctime: time(2024, 3, 5, 7, 9, 0),
        redacted: false,
    }
    .into_serializable(1);
    assert_eq!(r.tid, Some("00f".to_string()));
    assert_eq!(r.subject, "Reply to 00f");
    assert_eq!(r.utid, utid(1, 0xf, 1));
}

#[test]
fn pagination_drops_the_extra_row() {
    let (shown, has_more, limit) = paginated_threads(vec![thread(3, false, 30), thread(2, false, 20), thread(1, false, 10)], 2, 0);
    assert!(has_more);
    assert_eq!(limit, 2);
    assert_eq!(shown.len(), 2);
    assert_eq!(shown[0].id, "003");
    assert_eq!(shown[1].id, "002");
}

#[test]
fn pagination_last_page() {
    let (shown, has_more, limit) = paginated_threads(vec![thread(1, false, 10)], 20, 0);
    assert!(!has_more);
    assert_eq!(limit, 20);
    assert_eq!(shown.len(), 1);
    let (shown, has_more, _) = paginated_threads(vec![thread(1, false, 10)], -1, 0);
    assert!(!has_more);
    assert_eq!(shown.len(), 1);
}

#[test]
fn board_pagination_reports_last_mtime() {
    let (shown, has_more, limit, last) =
        paginated_board_threads(vec![thread(3, false, 30), thread(2, false, 20), thread(1, false, 10)], 2, 0);
    assert!(has_more);
    assert_eq!(limit, 2);
    assert_eq!(shown.len(), 2);
    assert_eq!(last, 20);
    let (shown, has_more, _, last) = paginated_board_threads(vec![], 2, 0);
    assert!(!has_more);
    assert!(shown.is_empty());
    assert_eq!(last, 0);
}

#[test]
fn page_limits() {
    assert_eq!(page_limit(None), 20);
    assert_eq!(page_limit(Some(5)), 5);
    assert_eq!(rows_to_fetch(20), 21);
}

#[test]
fn sidebar_boards() {
    let ctx = dashboard_context();
    assert_eq!(ctx.boards.hobbies.len(), 6);
    assert_eq!(ctx.boards.hobbies[0].url, "/a");
    assert_eq!(ctx.boards.interests.len(), 4);
    assert_eq!(ctx.boards.lifestyle.len(), 4);
    assert_eq!(ctx.boards.misc.len(), 3);
    assert_eq!(ctx.boards.misc[2].url, "/b");
    assert_eq!(ctx.boards.misc[2].label, "বিষয়বহির্ভূত (Random)");
}

#[test]
fn fallback_names_the_path() {
    assert_eq!(fallback_message("/nope"), "No route for /nope. Go back to <a href='/'>homepage</a>?");
}
