use vstd::prelude::*;
use vstd::string::*;

use crate::error::DecodeError;
use crate::wire::{opt_flag, spec_opt_flag, RawFlag};

verus! {

/// The staff role a post was made under.
#[derive(Debug, Clone, Copy, PartialEq, Eq)]
pub enum Capcode {
    Mod,
    Admin,
    AdminHighlight,
    Manager,
    Developer,
    Founder,
}

/// The wire token of each role.
pub open spec fn capcode_token(c: Capcode) -> Seq<char> {
    match c {
        Capcode::Mod => "mod"@,
        Capcode::Admin => "admin"@,
        Capcode::AdminHighlight => "admin_highlight"@,
        Capcode::Manager => "manager"@,
        Capcode::Developer => "developer"@,
        Capcode::Founder => "founder"@,
    }
}

/// The role a token names, if it names one.
pub open spec fn spec_capcode(s: Seq<char>) -> Option<Capcode> {
    if s == "mod"@ {
        Some(Capcode::Mod)
    } else if s == "admin"@ {
        Some(Capcode::Admin)
    } else if s == "admin_highlight"@ {
        Some(Capcode::AdminHighlight)
    } else if s == "manager"@ {
        Some(Capcode::Manager)
    } else if s == "developer"@ {
        Some(Capcode::Developer)
    } else if s == "founder"@ {
        Some(Capcode::Founder)
    } else {
        None
    }
}

/// Parsing a token: its role, or `UnknownCapcode` carrying the token.
pub open spec fn spec_parse_capcode(s: String) -> Result<Capcode, DecodeError> {
    match spec_capcode(s@) {
        Some(c) => Ok(c),
        None => Err(DecodeError::UnknownCapcode(s)),
    }
}

/// Each known token parses back to the role it stands for.
pub proof fn lemma_capcode_round_trip(c: Capcode)
    ensures
        spec_capcode(capcode_token(c)) == Some(c),
{
    reveal_strlit("mod");
    reveal_strlit("admin");
    reveal_strlit("admin_highlight");
    reveal_strlit("manager");
    reveal_strlit("developer");
    reveal_strlit("founder");
    assert("mod"@.len() == 3 && "admin"@.len() == 5 && "admin_highlight"@.len() == 15);
    assert("manager"@.len() == 7 && "developer"@.len() == 9 && "founder"@.len() == 7);
    assert("founder"@[0] == 'f' && "manager"@[0] == 'm');
    assert("founder"@ != "manager"@);
}

/// Compares two strings character by character.
fn same_text(a: &str, b: &str) -> (r: bool)
    ensures
        r == (a@ == b@),
{
    let n = a.unicode_len();
    if n != b.unicode_len() {
        return false;
    }
    let mut i: usize = 0;
    while i < n
        invariant
            n == a@.len(),
            n == b@.len(),
            i <= n,
            forall|j: int| 0 <= j < i ==> a@[j] == b@[j],
        decreases n - i,
    {
        if a.get_char(i) != b.get_char(i) {
            return false;
        }
        i = i + 1;
    }
    assert(a@ =~= b@);
    true
}

impl Capcode {
    /// Maps a wire token to its role; any other token is refused.
    pub fn parse(s: &String) -> (r: Result<Capcode, DecodeError>)
        ensures
            r == spec_parse_capcode(*s),
    {
        let t = s.as_str();
        if same_text(t, "mod") {
            Ok(Capcode::Mod)
        } else if same_text(t, "admin") {
            Ok(Capcode::Admin)
        } else if same_text(t, "admin_highlight") {
            Ok(Capcode::AdminHighlight)
        } else if same_text(t, "manager") {
            Ok(Capcode::Manager)
        } else if same_text(t, "developer") {
            Ok(Capcode::Developer)
        } else if same_text(t, "founder") {
            Ok(Capcode::Founder)
        } else {
            Err(DecodeError::UnknownCapcode(s.clone()))
        }
    }
}

/// Metadata of one uploaded file. Every field is present once a value exists.
#[derive(Debug, Clone, PartialEq)]
pub struct Attachment {
    /// Upload time in microseconds; serves as the file's id.
    pub id: u64,
    /// The name the file was uploaded under.
    pub filename: String,
    /// The file's extension, with its leading dot.
    pub ext: String,
    /// Size in bytes.
    pub size: u64,
    /// Packed base64 MD5 of the file.
    pub md5: String,
    pub width: i32,
    pub height: i32,
    pub thumbnail_width: i32,
    pub thumbnail_height: i32,
    /// The file is hidden behind a spoiler.
    pub spoiler: bool,
    /// A mobile-optimized rendition exists.
    pub mobile_optimized: bool,
}

/// The model of an `Attachment`: its text fields as character sequences.
pub struct AttachmentView {
    pub id: u64,
    pub filename: Seq<char>,
    pub ext: Seq<char>,
    pub size: u64,
    pub md5: Seq<char>,
    pub width: i32,
    pub height: i32,
    pub thumbnail_width: i32,
    pub thumbnail_height: i32,
    pub spoiler: bool,
    pub mobile_optimized: bool,
}

impl View for Attachment {
    type V = AttachmentView;

    open spec fn view(&self) -> AttachmentView {
        AttachmentView {
            id: self.id,
            filename: self.filename@,
            ext: self.ext@,
            size: self.size,
            md5: self.md5@,
            width: self.width,
            height: self.height,
            thumbnail_width: self.thumbnail_width,
            thumbnail_height: self.thumbnail_height,
            spoiler: self.spoiler,
            mobile_optimized: self.mobile_optimized,
        }
    }
}

/// The attachment keys of a raw post record, each of which may be absent.
#[derive(Debug, Clone, PartialEq)]
pub struct AttachmentPre {
    pub id: Option<u64>,
    pub filename: Option<String>,
    pub ext: Option<String>,
    pub size: Option<u64>,
    pub md5: Option<String>,
    pub width: Option<i32>,
    pub height: Option<i32>,
    pub thumbnail_width: Option<i32>,
    pub thumbnail_height: Option<i32>,
    pub spoiler: Option<RawFlag>,
    pub mobile_optimized: Option<RawFlag>,
}

pub open spec fn or_zero_u64(v: Option<u64>) -> u64 {
    match v {
        Some(n) => n,
        None => 0,
    }
}

pub open spec fn or_zero_i32(v: Option<i32>) -> i32 {
    match v {
        Some(n) => n,
        None => 0,
    }
}

/// An optional text, or the empty text when absent.
pub open spec fn or_empty(v: Option<String>) -> Seq<char> {
    match v {
        Some(s) => s@,
        None => Seq::empty(),
    }
}

pub open spec fn opt_view(v: Option<String>) -> Option<Seq<char>> {
    match v {
        Some(s) => Some(s@),
        None => None,
    }
}

/// The three keys whose joint presence marks an attachment.
pub open spec fn has_attachment_keys(pre: AttachmentPre) -> bool {
    pre.id is Some && pre.filename is Some && pre.ext is Some
}

/// The attachment a raw record describes: none unless id, filename and
/// extension are all present; otherwise every field, with absent numbers read
/// as zero, an absent digest as empty and absent flags as false.
pub open spec fn spec_attachment(pre: AttachmentPre) -> Result<Option<AttachmentView>, DecodeError> {
    if !has_attachment_keys(pre) {
        Ok(None)
    } else {
        match spec_opt_flag(pre.spoiler) {
            Err(e) => Err(e),
            Ok(spoiler) => match spec_opt_flag(pre.mobile_optimized) {
                Err(e) => Err(e),
                Ok(mobile_optimized) => Ok(
                    Some(
                        AttachmentView {
                            id: pre.id->0,
                            filename: pre.filename->0@,
                            ext: pre.ext->0@,
                            size: or_zero_u64(pre.size),
                            md5: or_empty(pre.md5),
                            width: or_zero_i32(pre.width),
                            height: or_zero_i32(pre.height),
                            thumbnail_width: or_zero_i32(pre.thumbnail_width),
                            thumbnail_height: or_zero_i32(pre.thumbnail_height),
                            spoiler,
                            mobile_optimized,
                        },
                    ),
                ),
            },
        }
    }
}

pub open spec fn opt_attachment_view(a: Option<Attachment>) -> Option<AttachmentView> {
    match a {
        Some(x) => Some(x@),
        None => None,
    }
}

pub open spec fn attachment_result_view(r: Result<Option<Attachment>, DecodeError>) -> Result<
    Option<AttachmentView>,
    DecodeError,
> {
    match r {
        Ok(a) => Ok(opt_attachment_view(a)),
        Err(e) => Err(e),
    }
}

/// A view of a result, the error kept as it is.
pub open spec fn res_view<T: View>(r: Result<T, DecodeError>) -> Result<T::V, DecodeError> {
    match r {
        Ok(t) => Ok(t@),
        Err(e) => Err(e),
    }
}

pub(crate) fn clone_opt(v: &Option<String>) -> (r: Option<String>)
    ensures
        r == *v,
{
    match v {
        Some(s) => Some(s.clone()),
        None => None,
    }
}

fn text_or_empty(v: &Option<String>) -> (r: String)
    ensures
        r@ == or_empty(*v),
{
    match v {
        Some(s) => s.clone(),
        None => String::new(),
    }
}

fn u64_or_zero(v: Option<u64>) -> (r: u64)
    ensures
        r == or_zero_u64(v),
{
    match v {
        Some(n) => n,
        None => 0,
    }
}

pub(crate) fn i32_or_zero(v: Option<i32>) -> (r: i32)
    ensures
        r == or_zero_i32(v),
{
    match v {
        Some(n) => n,
        None => 0,
    }
}

impl Attachment {
    /// Builds the attachment that a raw record describes, or none. A record
    /// without its id, filename or extension has no attachment; that is not an
    /// error. A flag that is present but not an integer is one.
    pub fn from_pre(pre: &AttachmentPre) -> (r: Result<Option<Attachment>, DecodeError>)
        ensures
            attachment_result_view(r) == spec_attachment(*pre),
            !has_attachment_keys(*pre) ==> r == Ok::<Option<Attachment>, DecodeError>(None),
    {
        match (&pre.id, &pre.filename, &pre.ext) {
            (Some(id), Some(filename), Some(ext)) => {
                let spoiler = match opt_flag(&pre.spoiler) {
                    Ok(b) => b,
                    Err(e) => return Err(e),
                };
                let mobile_optimized = match opt_flag(&pre.mobile_optimized) {
                    Ok(b) => b,
                    Err(e) => return Err(e),
                };
                Ok(
                    Some(
                        Attachment {
                            id: *id,
                            filename: filename.clone(),
                            ext: ext.clone(),
                            size: u64_or_zero(pre.size),
                            md5: text_or_empty(&pre.md5),
                            width: i32_or_zero(pre.width),
                            height: i32_or_zero(pre.height),
                            thumbnail_width: i32_or_zero(pre.thumbnail_width),
                            thumbnail_height: i32_or_zero(pre.thumbnail_height),
                            spoiler,
                            mobile_optimized,
                        },
                    ),
                )
            },
            _ => Ok(None),
        }
    }
}

/// A single message: an opening post when `resto` is zero, else a reply.
#[derive(Debug, Clone, PartialEq)]
pub struct Post {
    /// The post's number.
    pub no: u32,
    /// The thread replied to; zero for an opening post.
    pub resto: u32,
    /// Human-readable posting time.
    pub now: String,
    /// UNIX time of posting.
    pub time: u64,
    /// Display name.
    pub author: String,
    pub trip: Option<String>,
    pub author_id: Option<String>,
    pub capcode: Option<Capcode>,
    pub country: Option<String>,
    pub country_name: Option<String>,
    pub board_flag: Option<String>,
    pub flag_name: Option<String>,
    /// HTML-escaped body, passed through untouched.
    pub comment: Option<String>,
    pub attachment: Option<Attachment>,
    /// The post had a file that was deleted.
    pub file_deleted: bool,
    /// Year a pass was bought.
    pub since_4pass: Option<i32>,
}

/// The model of a `Post`.
pub struct PostView {
    pub no: u32,
    pub resto: u32,
    pub now: Seq<char>,
    pub time: u64,
    pub author: Seq<char>,
    pub trip: Option<Seq<char>>,
    pub author_id: Option<Seq<char>>,
    pub capcode: Option<Capcode>,
    pub country: Option<Seq<char>>,
    pub country_name: Option<Seq<char>>,
    pub board_flag: Option<Seq<char>>,
    pub flag_name: Option<Seq<char>>,
    pub comment: Option<Seq<char>>,
    pub attachment: Option<AttachmentView>,
    pub file_deleted: bool,
    pub since_4pass: Option<i32>,
}

impl View for Post {
    type V = PostView;

    open spec fn view(&self) -> PostView {
        PostView {
            no: self.no,
            resto: self.resto,
            now: self.now@,
            time: self.time,
            author: self.author@,
            trip: opt_view(self.trip),
            author_id: opt_view(self.author_id),
            capcode: self.capcode,
            country: opt_view(self.country),
            country_name: opt_view(self.country_name),
            board_flag: opt_view(self.board_flag),
            flag_name: opt_view(self.flag_name),
            comment: opt_view(self.comment),
            attachment: opt_attachment_view(self.attachment),
            file_deleted: self.file_deleted,
            since_4pass: self.since_4pass,
        }
    }
}

/// A raw post record, shared by opening posts and replies.
#[derive(Debug, Clone, PartialEq)]
pub struct PostPre {
    pub no: u32,
    pub resto: u32,
    pub now: String,
    pub time: u64,
    pub author: Option<String>,
    pub trip: Option<String>,
    pub author_id: Option<String>,
    pub capcode: Option<String>,
    pub country: Option<String>,
    pub country_name: Option<String>,
    pub board_flag: Option<String>,
    pub flag_name: Option<String>,
    pub comment: Option<String>,
    pub attachment: AttachmentPre,
    pub file_deleted: Option<RawFlag>,
    pub since_4pass: Option<i32>,
}

pub open spec fn spec_opt_capcode(v: Option<String>) -> Result<Option<Capcode>, DecodeError> {
    match v {
        None => Ok(None),
        Some(s) => match spec_parse_capcode(s) {
            Ok(c) => Ok(Some(c)),
            Err(e) => Err(e),
        },
    }
}

/// The post a raw record describes. The capcode is checked first, then the
/// attachment, then the deletion flag; the first failure is the result.
pub open spec fn spec_post(pre: PostPre) -> Result<PostView, DecodeError> {
    match spec_opt_capcode(pre.capcode) {
        Err(e) => Err(e),
        Ok(capcode) => match spec_attachment(pre.attachment) {
            Err(e) => Err(e),
            Ok(attachment) => match spec_opt_flag(pre.file_deleted) {
                Err(e) => Err(e),
                Ok(file_deleted) => Ok(
                    PostView {
                        no: pre.no,
                        resto: pre.resto,
                        now: pre.now@,
                        time: pre.time,
                        author: or_empty(pre.author),
                        trip: opt_view(pre.trip),
                        author_id: opt_view(pre.author_id),
                        capcode,
                        country: opt_view(pre.country),
                        country_name: opt_view(pre.country_name),
                        board_flag: opt_view(pre.board_flag),
                        flag_name: opt_view(pre.flag_name),
                        comment: opt_view(pre.comment),
                        attachment,
                        file_deleted,
                        since_4pass: pre.since_4pass,
                    },
                ),
            },
        },
    }
}

fn opt_capcode(v: &Option<String>) -> (r: Result<Option<Capcode>, DecodeError>)
    ensures
        r == spec_opt_capcode(*v),
{
    match v {
        None => Ok(None),
        Some(s) => match Capcode::parse(s) {
            Ok(c) => Ok(Some(c)),
            Err(e) => Err(e),
        },
    }
}

impl Post {
    /// Builds the canonical post from a raw record.
    pub fn from_pre(pre: &PostPre) -> (r: Result<Post, DecodeError>)
        ensures
            res_view(r) == spec_post(*pre),
    {
        let capcode = match opt_capcode(&pre.capcode) {
            Ok(c) => c,
            Err(e) => return Err(e),
        };
        let attachment = match Attachment::from_pre(&pre.attachment) {
            Ok(a) => a,
            Err(e) => return Err(e),
        };
        let file_deleted = match opt_flag(&pre.file_deleted) {
            Ok(b) => b,
            Err(e) => return Err(e),
        };
        let p = Post {
            no: pre.no,
            resto: pre.resto,
            now: pre.now.clone(),
            time: pre.time,
            author: text_or_empty(&pre.author),
            trip: clone_opt(&pre.trip),
            author_id: clone_opt(&pre.author_id),
            capcode,
            country: clone_opt(&pre.country),
            country_name: clone_opt(&pre.country_name),
            board_flag: clone_opt(&pre.board_flag),
            flag_name: clone_opt(&pre.flag_name),
            comment: clone_opt(&pre.comment),
            attachment,
            file_deleted,
            since_4pass: pre.since_4pass,
        };
        Ok(p)
    }
}

/// The character of a decimal digit.
pub open spec fn digit_char(d: nat) -> char {
    if d == 0 {
        '0'
    } else if d == 1 {
        '1'
    } else if d == 2 {
        '2'
    } else if d == 3 {
        '3'
    } else if d == 4 {
        '4'
    } else if d == 5 {
        '5'
    } else if d == 6 {
        '6'
    } else if d == 7 {
        '7'
    } else if d == 8 {
        '8'
    } else {
        '9'
    }
}

/// The decimal numeral of `n`, without leading zeros.
pub open spec fn decimal(n: nat) -> Seq<char>
    decreases n,
{
    if n < 10 {
        seq![digit_char(n)]
    } else {
        decimal(n / 10).push(digit_char(n % 10))
    }
}

/// Host that serves uploaded files.
pub open spec fn media_host() -> Seq<char> {
    "https://i.4cdn.org/"@
}

/// Where a file is served: the host, the board, the id and the extension;
/// a thumbnail puts `s` between id and extension.
pub open spec fn media_url(board: Seq<char>, id: u64, ext: Seq<char>, thumbnail: bool) -> Seq<char> {
    media_host() + board + "/"@ + decimal(id as nat) + (if thumbnail {
        "s"@
    } else {
        Seq::empty()
    }) + ext
}

fn digit_text(d: u64) -> (r: &'static str)
    requires
        d < 10,
    ensures
        r@ == seq![digit_char(d as nat)],
{
    proof {
        reveal_strlit("0");
        reveal_strlit("1");
        reveal_strlit("2");
        reveal_strlit("3");
        reveal_strlit("4");
        reveal_strlit("5");
        reveal_strlit("6");
        reveal_strlit("7");
        reveal_strlit("8");
        reveal_strlit("9");
    }
    let r = if d == 0 {
        "0"
    } else if d == 1 {
        "1"
    } else if d == 2 {
        "2"
    } else if d == 3 {
        "3"
    } else if d == 4 {
        "4"
    } else if d == 5 {
        "5"
    } else if d == 6 {
        "6"
    } else if d == 7 {
        "7"
    } else if d == 8 {
        "8"
    } else {
        "9"
    };
    assert(r@ =~= seq![digit_char(d as nat)]);
    r
}

pub(crate) fn append_decimal(s: &mut String, n: u64)
    ensures
        final(s)@ == old(s)@ + decimal(n as nat),
    decreases n,
{
    if n >= 10 {
        append_decimal(s, n / 10);
    }
    s.append(digit_text(n % 10));
    assert(s@ =~= old(s)@ + decimal(n as nat));
}

fn build_media_url(board: &str, id: u64, ext: &String, thumbnail: bool) -> (r: String)
    ensures
        r@ == media_url(board@, id, ext@, thumbnail),
{
    let mut s = String::from_str("https://i.4cdn.org/");
    s.append(board);
    s.append("/");
    append_decimal(&mut s, id);
    if thumbnail {
        s.append("s");
    }
    s.append(ext.as_str());
    proof {
        reveal_strlit("s");
    }
    assert(s@ =~= media_url(board@, id, ext@, thumbnail));
    s
}

impl Attachment {
    /// Where the file is served, for the board it was posted on.
    pub fn url(&self, board: &str) -> (r: String)
        ensures
            r@ == media_url(board@, self.id, self.ext@, false),
    {
        build_media_url(board, self.id, &self.ext, false)
    }

    /// Where the file's thumbnail is served, for the board it was posted on.
    pub fn thumbnail_url(&self, board: &str) -> (r: String)
        ensures
            r@ == media_url(board@, self.id, self.ext@, true),
    {
        build_media_url(board, self.id, &self.ext, true)
    }
}

impl Post {
    /// Where the post's file is served, if the post has one.
    pub fn attachment_url(&self, board: &str) -> (r: Option<String>)
        ensures
            r is Some <==> self.attachment is Some,
            r is Some ==> r->0@ == media_url(board@, self.attachment->0.id, self.attachment->0.ext@, false),
    {
        match &self.attachment {
            Some(a) => Some(a.url(board)),
            None => None,
        }
    }

    /// Where the post's thumbnail is served, if the post has a file.
    pub fn thumbnail_url(&self, board: &str) -> (r: Option<String>)
        ensures
            r is Some <==> self.attachment is Some,
            r is Some ==> r->0@ == media_url(board@, self.attachment->0.id, self.attachment->0.ext@, true),
    {
        match &self.attachment {
            Some(a) => Some(a.thumbnail_url(board)),
            None => None,
        }
    }
}

/// A record that carries the three identifying keys and integer flags (or
/// none) describes an attachment with every field taken from it.
pub proof fn lemma_attachment_complete(pre: AttachmentPre)
    requires
        has_attachment_keys(pre),
        pre.spoiler != Some(RawFlag::NotInteger),
        pre.mobile_optimized != Some(RawFlag::NotInteger),
    ensures
        spec_attachment(pre) is Ok,
        spec_attachment(pre)->Ok_0 is Some,
        ({
            let a = spec_attachment(pre)->Ok_0->0;
            &&& a.id == pre.id->0
            &&& a.filename == pre.filename->0@
            &&& a.ext == pre.ext->0@
            &&& a.size == or_zero_u64(pre.size)
            &&& a.md5 == or_empty(pre.md5)
            &&& a.width == or_zero_i32(pre.width)
            &&& a.height == or_zero_i32(pre.height)
            &&& a.thumbnail_width == or_zero_i32(pre.thumbnail_width)
            &&& a.thumbnail_height == or_zero_i32(pre.thumbnail_height)
            &&& spec_opt_flag(pre.spoiler) == Ok::<bool, DecodeError>(a.spoiler)
            &&& spec_opt_flag(pre.mobile_optimized) == Ok::<bool, DecodeError>(a.mobile_optimized)
        }),
{
}

/// A record that lacks any one of the three identifying keys describes no
/// attachment, and is no error, whatever its other keys hold.
pub proof fn lemma_attachment_absent(pre: AttachmentPre)
    requires
        pre.id is None || pre.filename is None || pre.ext is None,
    ensures
        spec_attachment(pre) == Ok::<Option<AttachmentView>, DecodeError>(None),
{
}

/// A post whose record lacks any of the three identifying attachment keys has
/// no attachment; such a record is never refused for its attachment, so it
/// normalizes whenever its capcode and deletion flag are valid.
pub proof fn lemma_post_without_attachment(pre: PostPre)
    requires
        pre.attachment.id is None || pre.attachment.filename is None || pre.attachment.ext is None,
    ensures
        (spec_opt_capcode(pre.capcode) is Ok && pre.file_deleted != Some(RawFlag::NotInteger)) ==> (
        spec_post(pre) is Ok),
        spec_post(pre) is Ok ==> spec_post(pre)->Ok_0.attachment is None,
{
    lemma_attachment_absent(pre.attachment);
}

} // verus!
