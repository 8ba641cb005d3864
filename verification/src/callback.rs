//! Callback payload encoding for the inline action buttons.
//!
//! Every button carries its action and targets as a compact text payload:
//! an action tag, a colon, and the target id; paginated browsing carries
//! the triplet of author, status code and page number. Decoding reads back
//! exactly what encoding wrote — the round trip is proved below.

use vstd::prelude::*;

use crate::datetime::is_digit;
use crate::digits::{
    all_digits, dec_digits, dec_digits_i64, dec_value, i64_to_dec, lemma_dec_digits,
    lemma_dec_value_nonneg, parse_i64, parse_u32, spec_parse_i64, u128_to_dec,
};
use crate::errors::AppError;
use crate::post::{status_code, Status};

verus! {

broadcast use vstd::seq_lib::group_seq_lib_default;

/// One inline button's action, with its targets.
#[derive(Debug, PartialEq)]
pub enum MyCallback {
    Cancel,
    MakeUserEditor { id: i64 },
    MakeUserGuest { id: i64 },
    DeleteUser { id: i64 },
    PublishNow { id: u128 },
    DeletePost { id: u128 },
    SetPublishDate { id: u128 },
    PostsNextPage { author_id: i64, status: Status, page: u32 },
    PostsPreviousPage { author_id: i64, status: Status, page: u32 },
    Drafts { author_id: i64 },
    Pending { author_id: i64 },
    Published { author_id: i64 },
}

/// The status as one decimal digit, as the payload carries it.
pub open spec fn status_digits(st: Status) -> Seq<char> {
    dec_digits(status_code(st) as nat)
}

/// The payload text of a callback: tag, colon, then the targets.
pub open spec fn spec_data(cb: MyCallback) -> Seq<char> {
    match cb {
        MyCallback::Cancel => "ca"@,
        MyCallback::MakeUserEditor { id } => "me:"@ + dec_digits_i64(id as int),
        MyCallback::MakeUserGuest { id } => "mg:"@ + dec_digits_i64(id as int),
        MyCallback::DeleteUser { id } => "du:"@ + dec_digits_i64(id as int),
        MyCallback::PublishNow { id } => "pn:"@ + dec_digits(id as nat),
        MyCallback::DeletePost { id } => "dp:"@ + dec_digits(id as nat),
        MyCallback::SetPublishDate { id } => "sd:"@ + dec_digits(id as nat),
        MyCallback::PostsNextPage { author_id, status, page } => "nx:"@ + dec_digits_i64(
            author_id as int,
        ) + ":"@ + status_digits(status) + ":"@ + dec_digits(page as nat),
        MyCallback::PostsPreviousPage { author_id, status, page } => "pv:"@ + dec_digits_i64(
            author_id as int,
        ) + ":"@ + status_digits(status) + ":"@ + dec_digits(page as nat),
        MyCallback::Drafts { author_id } => "dr:"@ + dec_digits_i64(author_id as int),
        MyCallback::Pending { author_id } => "pe:"@ + dec_digits_i64(author_id as int),
        MyCallback::Published { author_id } => "pu:"@ + dec_digits_i64(author_id as int),
    }
}

/// Index of the first colon at or after `i`, or the length if none.
pub open spec fn first_colon_from(cs: Seq<char>, i: int) -> int
    recommends
        0 <= i <= cs.len(),
    decreases cs.len() - i,
{
    if i < 0 || i >= cs.len() {
        cs.len() as int
    } else if cs[i] == ':' {
        i
    } else {
        first_colon_from(cs, i + 1)
    }
}

/// The first colon is where the first colon stands.
proof fn lemma_first_colon_at(cs: Seq<char>, i: int, k: int)
    requires
        0 <= i <= k <= cs.len(),
        forall|j: int| i <= j < k ==> cs[j] != ':',
        k < cs.len() ==> cs[k] == ':',
    ensures
        first_colon_from(cs, i) == if k < cs.len() {
            k
        } else {
            cs.len() as int
        },
    decreases k - i,
{
    if i < k {
        lemma_first_colon_at(cs, i + 1, k);
    }
}

/// A digit is not a colon, so a digit string holds none.
proof fn lemma_digits_no_colon(cs: Seq<char>)
    requires
        all_digits(cs),
    ensures
        forall|j: int| 0 <= j < cs.len() ==> cs[j] != ':',
{
    assert forall|j: int| 0 <= j < cs.len() implies cs[j] != ':' by {
        assert(is_digit(cs[j]));
    }
}

/// The callback a payload denotes, if any: the inverse reading of
/// [`spec_data`].
pub open spec fn spec_from_str(cs: Seq<char>) -> Option<MyCallback> {
    if cs == "ca"@ {
        Some(MyCallback::Cancel)
    } else if cs.len() < 3 {
        None
    } else {
        let tag = cs.subrange(0, 3);
        let data = cs.subrange(3, cs.len() as int);
        if tag == "me:"@ {
            match spec_parse_i64(data) {
                Some(v) => Some(MyCallback::MakeUserEditor { id: v as i64 }),
                None => None,
            }
        } else if tag == "mg:"@ {
            match spec_parse_i64(data) {
                Some(v) => Some(MyCallback::MakeUserGuest { id: v as i64 }),
                None => None,
            }
        } else if tag == "du:"@ {
            match spec_parse_i64(data) {
                Some(v) => Some(MyCallback::DeleteUser { id: v as i64 }),
                None => None,
            }
        } else if tag == "pn:"@ {
            if data.len() >= 1 && all_digits(data) && dec_value(data) <= u128::MAX {
                Some(MyCallback::PublishNow { id: dec_value(data) as u128 })
            } else {
                None
            }
        } else if tag == "dp:"@ {
            if data.len() >= 1 && all_digits(data) && dec_value(data) <= u128::MAX {
                Some(MyCallback::DeletePost { id: dec_value(data) as u128 })
            } else {
                None
            }
        } else if tag == "sd:"@ {
            if data.len() >= 1 && all_digits(data) && dec_value(data) <= u128::MAX {
                Some(MyCallback::SetPublishDate { id: dec_value(data) as u128 })
            } else {
                None
            }
        } else if tag == "dr:"@ {
            match spec_parse_i64(data) {
                Some(v) => Some(MyCallback::Drafts { author_id: v as i64 }),
                None => None,
            }
        } else if tag == "pe:"@ {
            match spec_parse_i64(data) {
                Some(v) => Some(MyCallback::Pending { author_id: v as i64 }),
                None => None,
            }
        } else if tag == "pu:"@ {
            match spec_parse_i64(data) {
                Some(v) => Some(MyCallback::Published { author_id: v as i64 }),
                None => None,
            }
        } else if tag == "nx:"@ || tag == "pv:"@ {
            match spec_parse_triplet(data) {
                Some((author_id, status, page)) => if tag == "nx:"@ {
                    Some(MyCallback::PostsNextPage { author_id, status, page })
                } else {
                    Some(MyCallback::PostsPreviousPage { author_id, status, page })
                },
                None => None,
            }
        } else {
            None
        }
    }
}

/// The author, status and page a triplet payload denotes, if it has
/// exactly three colon-separated parts: a signed author id, a status code
/// digit, and an unsigned page number.
pub open spec fn spec_parse_triplet(data: Seq<char>) -> Option<(i64, Status, u32)> {
    let k1 = first_colon_from(data, 0);
    if k1 >= data.len() {
        None
    } else {
        let k2 = first_colon_from(data, k1 + 1);
        if k2 >= data.len() || first_colon_from(data, k2 + 1) != data.len() {
            None
        } else {
            let seg1 = data.subrange(0, k1);
            let seg2 = data.subrange(k1 + 1, k2);
            let seg3 = data.subrange(k2 + 1, data.len() as int);
            match spec_parse_i64(seg1) {
                Some(a) => if seg2.len() >= 1 && all_digits(seg2) && 0 <= dec_value(seg2) <= 3
                    && seg3.len() >= 1 && all_digits(seg3) && dec_value(seg3) <= u32::MAX {
                    let st = if dec_value(seg2) == 0 {
                        Status::Draft
                    } else if dec_value(seg2) == 1 {
                        Status::Pending
                    } else if dec_value(seg2) == 2 {
                        Status::Published
                    } else {
                        Status::Abandoned
                    };
                    Some((a as i64, st, dec_value(seg3) as u32))
                } else {
                    None
                },
                None => None,
            }
        }
    }
}

impl MyCallback {
    /// The payload this callback travels as.
    pub fn data(&self) -> (r: String)
        ensures
            r@ == spec_data(*self),
    {
        match self {
            MyCallback::Cancel => String::from_str("ca"),
            MyCallback::MakeUserEditor { id } => {
                let mut s = String::from_str("me:");
                s.append(i64_to_dec(*id).as_str());
                s
            },
            MyCallback::MakeUserGuest { id } => {
                let mut s = String::from_str("mg:");
                s.append(i64_to_dec(*id).as_str());
                s
            },
            MyCallback::DeleteUser { id } => {
                let mut s = String::from_str("du:");
                s.append(i64_to_dec(*id).as_str());
                s
            },
            MyCallback::PublishNow { id } => {
                let mut s = String::from_str("pn:");
                s.append(u128_to_dec(*id).as_str());
                s
            },
            MyCallback::DeletePost { id } => {
                let mut s = String::from_str("dp:");
                s.append(u128_to_dec(*id).as_str());
                s
            },
            MyCallback::SetPublishDate { id } => {
                let mut s = String::from_str("sd:");
                s.append(u128_to_dec(*id).as_str());
                s
            },
            MyCallback::Drafts { author_id } => {
                let mut s = String::from_str("dr:");
                s.append(i64_to_dec(*author_id).as_str());
                s
            },
            MyCallback::Pending { author_id } => {
                let mut s = String::from_str("pe:");
                s.append(i64_to_dec(*author_id).as_str());
                s
            },
            MyCallback::Published { author_id } => {
                let mut s = String::from_str("pu:");
                s.append(i64_to_dec(*author_id).as_str());
                s
            },
            MyCallback::PostsNextPage { author_id, status, page } => {
                let mut s = String::from_str("nx:");
                s.append(i64_to_dec(*author_id).as_str());
                s.append(":");
                s.append(u128_to_dec(status.as_i32() as u128).as_str());
                s.append(":");
                s.append(u128_to_dec(*page as u128).as_str());
                s
            },
            MyCallback::PostsPreviousPage { author_id, status, page } => {
                let mut s = String::from_str("pv:");
                s.append(i64_to_dec(*author_id).as_str());
                s.append(":");
                s.append(u128_to_dec(status.as_i32() as u128).as_str());
                s.append(":");
                s.append(u128_to_dec(*page as u128).as_str());
                s
            },
        }
    }

    /// Reads a payload back into its callback; anything that no callback
    /// encodes to is rejected.
    pub fn from_str(s: &str) -> (r: Result<MyCallback, AppError>)
        ensures
            r matches Ok(cb) ==> spec_from_str(s@) == Some(cb),
            r is Err ==> spec_from_str(s@) is None,
            r matches Err(e) ==> e is InvalidArgument,
    {
        let n = s.unicode_len();
        if crate::text::str_eq(s, "ca") {
            return Ok(MyCallback::Cancel);
        }
        if n < 3 {
            return Err(AppError::InvalidArgument);
        }
        let tag = s.substring_char(0, 3);
        proof {
            assert(tag@ == s@.subrange(0, 3));
        }
        if crate::text::str_eq(tag, "me:") {
            match parse_i64(s, 3, n) {
                Some(v) => Ok(MyCallback::MakeUserEditor { id: v }),
                None => Err(AppError::InvalidArgument),
            }
        } else if crate::text::str_eq(tag, "mg:") {
            match parse_i64(s, 3, n) {
                Some(v) => Ok(MyCallback::MakeUserGuest { id: v }),
                None => Err(AppError::InvalidArgument),
            }
        } else if crate::text::str_eq(tag, "du:") {
            match parse_i64(s, 3, n) {
                Some(v) => Ok(MyCallback::DeleteUser { id: v }),
                None => Err(AppError::InvalidArgument),
            }
        } else if crate::text::str_eq(tag, "pn:") {
            match crate::digits::parse_u128(s, 3, n) {
                Some(v) => Ok(MyCallback::PublishNow { id: v }),
                None => Err(AppError::InvalidArgument),
            }
        } else if crate::text::str_eq(tag, "dp:") {
            match crate::digits::parse_u128(s, 3, n) {
                Some(v) => Ok(MyCallback::DeletePost { id: v }),
                None => Err(AppError::InvalidArgument),
            }
        } else if crate::text::str_eq(tag, "sd:") {
            match crate::digits::parse_u128(s, 3, n) {
                Some(v) => Ok(MyCallback::SetPublishDate { id: v }),
                None => Err(AppError::InvalidArgument),
            }
        } else if crate::text::str_eq(tag, "dr:") {
            match parse_i64(s, 3, n) {
                Some(v) => Ok(MyCallback::Drafts { author_id: v }),
                None => Err(AppError::InvalidArgument),
            }
        } else if crate::text::str_eq(tag, "pe:") {
            match parse_i64(s, 3, n) {
                Some(v) => Ok(MyCallback::Pending { author_id: v }),
                None => Err(AppError::InvalidArgument),
            }
        } else if crate::text::str_eq(tag, "pu:") {
            match parse_i64(s, 3, n) {
                Some(v) => Ok(MyCallback::Published { author_id: v }),
                None => Err(AppError::InvalidArgument),
            }
        } else if crate::text::str_eq(tag, "nx:") || crate::text::str_eq(tag, "pv:") {
            let next = crate::text::str_eq(tag, "nx:");
            match parse_triplet(s, 3, n) {
                Some((author_id, status, page)) => if next {
                    Ok(MyCallback::PostsNextPage { author_id, status, page })
                } else {
                    Ok(MyCallback::PostsPreviousPage { author_id, status, page })
                },
                None => Err(AppError::InvalidArgument),
            }
        } else {
            Err(AppError::InvalidArgument)
        }
    }
}

impl MyCallback {
    /// The action buttons under a guest's user card.
    pub fn guest_kb(id: i64) -> (r: Vec<Vec<MyCallback>>)
        ensures
            r@.len() == 3,
            r@[0]@ == seq![
                MyCallback::MakeUserEditor { id },
                MyCallback::DeleteUser { id },
            ],
            r@[1]@ == seq![
                MyCallback::Drafts { author_id: id },
                MyCallback::Pending { author_id: id },
            ],
            r@[2]@ == seq![MyCallback::Published { author_id: id }],
    {
        let mut row0: Vec<MyCallback> = Vec::new();
        row0.push(MyCallback::MakeUserEditor { id });
        row0.push(MyCallback::DeleteUser { id });
        let mut row1: Vec<MyCallback> = Vec::new();
        row1.push(MyCallback::Drafts { author_id: id });
        row1.push(MyCallback::Pending { author_id: id });
        let mut row2: Vec<MyCallback> = Vec::new();
        row2.push(MyCallback::Published { author_id: id });
        let mut kb: Vec<Vec<MyCallback>> = Vec::new();
        kb.push(row0);
        kb.push(row1);
        kb.push(row2);
        proof {
            assert(kb@[0]@ =~= seq![
                MyCallback::MakeUserEditor { id },
                MyCallback::DeleteUser { id },
            ]);
            assert(kb@[1]@ =~= seq![
                MyCallback::Drafts { author_id: id },
                MyCallback::Pending { author_id: id },
            ]);
            assert(kb@[2]@ =~= seq![MyCallback::Published { author_id: id }]);
        }
        kb
    }

    /// The action buttons under an editor's user card.
    pub fn editor_kb(id: i64) -> (r: Vec<Vec<MyCallback>>)
        ensures
            r@.len() == 3,
            r@[0]@ == seq![
                MyCallback::MakeUserGuest { id },
                MyCallback::DeleteUser { id },
            ],
            r@[1]@ == seq![
                MyCallback::Drafts { author_id: id },
                MyCallback::Pending { author_id: id },
            ],
            r@[2]@ == seq![MyCallback::Published { author_id: id }],
    {
        let mut row0: Vec<MyCallback> = Vec::new();
        row0.push(MyCallback::MakeUserGuest { id });
        row0.push(MyCallback::DeleteUser { id });
        let mut row1: Vec<MyCallback> = Vec::new();
        row1.push(MyCallback::Drafts { author_id: id });
        row1.push(MyCallback::Pending { author_id: id });
        let mut row2: Vec<MyCallback> = Vec::new();
        row2.push(MyCallback::Published { author_id: id });
        let mut kb: Vec<Vec<MyCallback>> = Vec::new();
        kb.push(row0);
        kb.push(row1);
        kb.push(row2);
        proof {
            assert(kb@[0]@ =~= seq![
                MyCallback::MakeUserGuest { id },
                MyCallback::DeleteUser { id },
            ]);
            assert(kb@[1]@ =~= seq![
                MyCallback::Drafts { author_id: id },
                MyCallback::Pending { author_id: id },
            ]);
            assert(kb@[2]@ =~= seq![MyCallback::Published { author_id: id }]);
        }
        kb
    }

    /// The action buttons under a post that is not yet published.
    pub fn not_published_kb(id: u128) -> (r: Vec<Vec<MyCallback>>)
        ensures
            r@.len() == 2,
            r@[0]@ == seq![
                MyCallback::PublishNow { id },
                MyCallback::SetPublishDate { id },
            ],
            r@[1]@ == seq![MyCallback::DeletePost { id }],
    {
        let mut row0: Vec<MyCallback> = Vec::new();
        row0.push(MyCallback::PublishNow { id });
        row0.push(MyCallback::SetPublishDate { id });
        let mut row1: Vec<MyCallback> = Vec::new();
        row1.push(MyCallback::DeletePost { id });
        let mut kb: Vec<Vec<MyCallback>> = Vec::new();
        kb.push(row0);
        kb.push(row1);
        proof {
            assert(kb@[0]@ =~= seq![
                MyCallback::PublishNow { id },
                MyCallback::SetPublishDate { id },
            ]);
            assert(kb@[1]@ =~= seq![MyCallback::DeletePost { id }]);
        }
        kb
    }

    /// The action buttons under a published post.
    pub fn published_kb(id: u128) -> (r: Vec<Vec<MyCallback>>)
        ensures
            r@.len() == 1,
            r@[0]@ == seq![MyCallback::DeletePost { id }],
    {
        let mut row0: Vec<MyCallback> = Vec::new();
        row0.push(MyCallback::DeletePost { id });
        let mut kb: Vec<Vec<MyCallback>> = Vec::new();
        kb.push(row0);
        proof {
            assert(kb@[0]@ =~= seq![MyCallback::DeletePost { id }]);
        }
        kb
    }

    /// The row closing a listing that continues on a further page.
    pub fn has_next_kb(author_id: i64, status: Status, page: u32) -> (r: Vec<Vec<MyCallback>>)
        ensures
            r@.len() == 1,
            r@[0]@ == seq![
                MyCallback::Cancel,
                MyCallback::PostsNextPage { author_id, status, page },
            ],
    {
        let mut row0: Vec<MyCallback> = Vec::new();
        row0.push(MyCallback::Cancel);
        row0.push(MyCallback::PostsNextPage { author_id, status, page });
        let mut kb: Vec<Vec<MyCallback>> = Vec::new();
        kb.push(row0);
        proof {
            assert(kb@[0]@ =~= seq![
                MyCallback::Cancel,
                MyCallback::PostsNextPage { author_id, status, page },
            ]);
        }
        kb
    }

    /// The row closing a listing's last page when earlier pages exist.
    pub fn has_previous_kb(author_id: i64, status: Status, page: u32) -> (r: Vec<
        Vec<MyCallback>,
    >)
        ensures
            r@.len() == 1,
            r@[0]@ == seq![
                MyCallback::PostsPreviousPage { author_id, status, page },
                MyCallback::Cancel,
            ],
    {
        let mut row0: Vec<MyCallback> = Vec::new();
        row0.push(MyCallback::PostsPreviousPage { author_id, status, page });
        row0.push(MyCallback::Cancel);
        let mut kb: Vec<Vec<MyCallback>> = Vec::new();
        kb.push(row0);
        proof {
            assert(kb@[0]@ =~= seq![
                MyCallback::PostsPreviousPage { author_id, status, page },
                MyCallback::Cancel,
            ]);
        }
        kb
    }

    /// The rows closing a middle page: back, the page number, forward,
    /// then the cancel row.
    pub fn has_previous_and_next_kb(author_id: i64, status: Status, current_page: u32) -> (r:
        Vec<Vec<MyCallback>>)
        requires
            2 <= current_page < 0xffff_ffffu32,
        ensures
            r@.len() == 2,
            r@[0]@ == seq![
                MyCallback::PostsPreviousPage {
                    author_id,
                    status,
                    page: (current_page - 1) as u32,
                },
                MyCallback::PostsNextPage {
                    author_id,
                    status,
                    page: (current_page + 1) as u32,
                },
            ],
            r@[1]@ == seq![MyCallback::Cancel],
    {
        let mut row0: Vec<MyCallback> = Vec::new();
        row0.push(MyCallback::PostsPreviousPage { author_id, status, page: current_page - 1 });
        row0.push(MyCallback::PostsNextPage { author_id, status, page: current_page + 1 });
        let mut row1: Vec<MyCallback> = Vec::new();
        row1.push(MyCallback::Cancel);
        let mut kb: Vec<Vec<MyCallback>> = Vec::new();
        kb.push(row0);
        kb.push(row1);
        proof {
            assert(kb@[0]@ =~= seq![
                MyCallback::PostsPreviousPage {
                    author_id,
                    status,
                    page: (current_page - 1) as u32,
                },
                MyCallback::PostsNextPage {
                    author_id,
                    status,
                    page: (current_page + 1) as u32,
                },
            ]);
            assert(kb@[1]@ =~= seq![MyCallback::Cancel]);
        }
        kb
    }

    /// The lone cancel row.
    pub fn cancel_button() -> (r: Vec<Vec<MyCallback>>)
        ensures
            r@.len() == 1,
            r@[0]@ == seq![MyCallback::Cancel],
    {
        let mut row0: Vec<MyCallback> = Vec::new();
        row0.push(MyCallback::Cancel);
        let mut kb: Vec<Vec<MyCallback>> = Vec::new();
        kb.push(row0);
        proof {
            assert(kb@[0]@ =~= seq![MyCallback::Cancel]);
        }
        kb
    }
}

/// How a browsed listing page closes, by where the reader stands.
#[derive(Debug, PartialEq)]
pub enum PageNav {
    /// A middle page: back and forward.
    PrevAndNext { prev: u32, next: u32 },
    /// The last page beyond the first: back only.
    PrevOnly { prev: u32 },
    /// The first page with more to come: forward only.
    NextOnly { next: u32 },
    /// The single page: nothing but cancel.
    CancelOnly,
}

/// The navigation shown after a page: forward while pages remain, back
/// from every page but the first.
pub fn page_nav(page: u32, has_next: bool) -> (r: PageNav)
    requires
        1 <= page < 0xffff_ffffu32,
    ensures
        page != 1 && has_next ==> r == (PageNav::PrevAndNext {
            prev: (page - 1) as u32,
            next: (page + 1) as u32,
        }),
        page != 1 && !has_next ==> r == (PageNav::PrevOnly { prev: (page - 1) as u32 }),
        page == 1 && has_next ==> r == (PageNav::NextOnly { next: (page + 1) as u32 }),
        page == 1 && !has_next ==> r == (PageNav::CancelOnly),
{
    if page != 1 {
        if has_next {
            PageNav::PrevAndNext { prev: page - 1, next: page + 1 }
        } else {
            PageNav::PrevOnly { prev: page - 1 }
        }
    } else {
        if has_next {
            PageNav::NextOnly { next: page + 1 }
        } else {
            PageNav::CancelOnly
        }
    }
}

/// Index of the first colon at or after `start`.
fn find_colon(s: &str, start: usize, end: usize) -> (r: usize)
    requires
        start <= end <= s@.len(),
        end == s@.len(),
    ensures
        r == first_colon_from(s@, start as int),
        start <= r <= s@.len(),
        r < s@.len() ==> s@[r as int] == ':',
        forall|j: int| start <= j < r ==> s@[j] != ':',
    decreases end - start,
{
    let mut i: usize = start;
    while i < end
        invariant
            start <= i <= end,
            forall|j: int| start <= j < i ==> s@[j] != ':',
            first_colon_from(s@, start as int) == first_colon_from(s@, i as int),
        decreases end - i,
    {
        let c = s.get_char(i);
        if c == ':' {
            return i;
        }
        i = i + 1;
    }
    i
}

/// Reads a triplet payload: author, status code and page.
fn parse_triplet(s: &str, from: usize, to: usize) -> (r: Option<(i64, Status, u32)>)
    requires
        from <= to <= s@.len(),
        to == s@.len(),
    ensures
        ({
            let data = s@.subrange(from as int, to as int);
            match r {
                Some(t) => spec_parse_triplet(data) == Some(t),
                None => spec_parse_triplet(data) is None,
            }
        }),
{
    let ghost data = s@.subrange(from as int, to as int);
    let k1 = find_colon(s, from, to);
    proof {
        lemma_first_colon_shift(s@, from as int, to as int, from as int);
    }
    if k1 >= to {
        return None;
    }
    let k2 = find_colon(s, k1 + 1, to);
    proof {
        lemma_first_colon_shift(s@, from as int, to as int, k1 + 1);
    }
    if k2 >= to {
        return None;
    }
    let k3 = find_colon(s, k2 + 1, to);
    proof {
        lemma_first_colon_shift(s@, from as int, to as int, k2 + 1);
    }
    if k3 < to {
        return None;
    }
    let author = match parse_i64(s, from, k1) {
        Some(a) => a,
        None => {
            proof {
                assert(data.subrange(0, k1 - from) =~= s@.subrange(from as int, k1 as int));
            }
            return None;
        },
    };
    proof {
        assert(data.subrange(0, k1 - from) =~= s@.subrange(from as int, k1 as int));
    }
    let code = match parse_u32(s, k1 + 1, k2) {
        Some(c) => c,
        None => {
            proof {
                assert(data.subrange(k1 - from + 1, k2 - from) =~= s@.subrange(
                    k1 + 1,
                    k2 as int,
                ));
            }
            return None;
        },
    };
    proof {
        assert(data.subrange(k1 - from + 1, k2 - from) =~= s@.subrange(k1 + 1, k2 as int));
    }
    if code > 3 {
        return None;
    }
    let status = Status::from_i32(code as i32).unwrap();
    let page = match parse_u32(s, k2 + 1, to) {
        Some(p) => p,
        None => {
            proof {
                assert(data.subrange(k2 - from + 1, data.len() as int) =~= s@.subrange(
                    k2 + 1,
                    to as int,
                ));
            }
            return None;
        },
    };
    proof {
        assert(data.subrange(k2 - from + 1, data.len() as int) =~= s@.subrange(
            k2 + 1,
            to as int,
        ));
    }
    Some((author, status, page))
}

/// Two texts differing at one position differ.
proof fn lemma_seq_ne_at(a: Seq<char>, b: Seq<char>, i: int)
    requires
        0 <= i < a.len(),
        0 <= i < b.len(),
        a[i] != b[i],
    ensures
        a != b,
{
}

/// A signed decimal rendering holds no colon and reads back as its value.
proof fn lemma_parse_i64_digits(n: int)
    requires
        i64::MIN <= n <= i64::MAX,
    ensures
        dec_digits_i64(n).len() >= 1,
        spec_parse_i64(dec_digits_i64(n)) == Some(n),
        forall|j: int| 0 <= j < dec_digits_i64(n).len() ==> dec_digits_i64(n)[j] != ':',
{
    if n >= 0 {
        lemma_dec_digits(n as nat);
        lemma_digits_no_colon(dec_digits(n as nat));
        let cs = dec_digits_i64(n);
        assert(is_digit(cs[0]));
        assert(cs[0] != '-');
    } else {
        lemma_dec_digits((-n) as nat);
        lemma_digits_no_colon(dec_digits((-n) as nat));
        let cs = dec_digits_i64(n);
        assert(cs[0] == '-');
        assert(cs.subrange(1, cs.len() as int) =~= dec_digits((-n) as nat));
        assert forall|j: int| 0 <= j < cs.len() implies cs[j] != ':' by {
            if j >= 1 {
                assert(cs[j] == dec_digits((-n) as nat)[j - 1]);
                assert(is_digit(cs[j]));
            }
        }
    }
}

/// Decoding a payload that encoding wrote yields the callback it was
/// written from: the action tag, the target ids, and for paginated
/// browsing the author, status and page triplet all survive the trip.
#[verifier::rlimit(100)]
#[verifier::spinoff_prover]
pub proof fn lemma_callback_round_trip(cb: MyCallback)
    ensures
        spec_from_str(spec_data(cb)) == Some(cb),
{
    reveal_strlit("ca");
    reveal_strlit("me:");
    reveal_strlit("mg:");
    reveal_strlit("du:");
    reveal_strlit("pn:");
    reveal_strlit("dp:");
    reveal_strlit("sd:");
    reveal_strlit("dr:");
    reveal_strlit("pe:");
    reveal_strlit("pu:");
    reveal_strlit("nx:");
    reveal_strlit("pv:");
    reveal_strlit(":");
    let me = "me:"@;
    let mg = "mg:"@;
    let du = "du:"@;
    let pn = "pn:"@;
    let dp = "dp:"@;
    let sd = "sd:"@;
    let dr = "dr:"@;
    let pe = "pe:"@;
    let pu = "pu:"@;
    let nx = "nx:"@;
    let pv = "pv:"@;
    lemma_seq_ne_at(mg, me, 1);
    lemma_seq_ne_at(du, me, 0);
    lemma_seq_ne_at(du, mg, 0);
    lemma_seq_ne_at(pn, me, 0);
    lemma_seq_ne_at(pn, mg, 0);
    lemma_seq_ne_at(pn, du, 0);
    lemma_seq_ne_at(dp, me, 0);
    lemma_seq_ne_at(dp, mg, 0);
    lemma_seq_ne_at(dp, du, 1);
    lemma_seq_ne_at(dp, pn, 0);
    lemma_seq_ne_at(sd, me, 0);
    lemma_seq_ne_at(sd, mg, 0);
    lemma_seq_ne_at(sd, du, 0);
    lemma_seq_ne_at(sd, pn, 0);
    lemma_seq_ne_at(sd, dp, 0);
    lemma_seq_ne_at(dr, me, 0);
    lemma_seq_ne_at(dr, mg, 0);
    lemma_seq_ne_at(dr, du, 1);
    lemma_seq_ne_at(dr, pn, 0);
    lemma_seq_ne_at(dr, dp, 1);
    lemma_seq_ne_at(dr, sd, 0);
    lemma_seq_ne_at(pe, me, 0);
    lemma_seq_ne_at(pe, mg, 0);
    lemma_seq_ne_at(pe, du, 0);
    lemma_seq_ne_at(pe, pn, 1);
    lemma_seq_ne_at(pe, dp, 0);
    lemma_seq_ne_at(pe, sd, 0);
    lemma_seq_ne_at(pe, dr, 0);
    lemma_seq_ne_at(pu, me, 0);
    lemma_seq_ne_at(pu, mg, 0);
    lemma_seq_ne_at(pu, du, 0);
    lemma_seq_ne_at(pu, pn, 1);
    lemma_seq_ne_at(pu, dp, 1);
    lemma_seq_ne_at(pu, sd, 0);
    lemma_seq_ne_at(pu, dr, 0);
    lemma_seq_ne_at(pu, pe, 1);
    lemma_seq_ne_at(nx, me, 0);
    lemma_seq_ne_at(nx, mg, 0);
    lemma_seq_ne_at(nx, du, 0);
    lemma_seq_ne_at(nx, pn, 0);
    lemma_seq_ne_at(nx, dp, 0);
    lemma_seq_ne_at(nx, sd, 0);
    lemma_seq_ne_at(nx, dr, 0);
    lemma_seq_ne_at(nx, pe, 0);
    lemma_seq_ne_at(nx, pu, 0);
    lemma_seq_ne_at(pv, me, 0);
    lemma_seq_ne_at(pv, mg, 0);
    lemma_seq_ne_at(pv, du, 0);
    lemma_seq_ne_at(pv, pn, 1);
    lemma_seq_ne_at(pv, dp, 1);
    lemma_seq_ne_at(pv, sd, 0);
    lemma_seq_ne_at(pv, dr, 0);
    lemma_seq_ne_at(pv, pe, 1);
    lemma_seq_ne_at(pv, pu, 1);
    lemma_seq_ne_at(pv, nx, 0);
    let cs = spec_data(cb);
    match cb {
        MyCallback::Cancel => {
        },
        MyCallback::MakeUserEditor { id } => {
            lemma_parse_i64_digits(id as int);
            assert(cs != "ca"@);
            assert(cs.subrange(0, 3) =~= me);
            assert(cs.subrange(3, cs.len() as int) =~= dec_digits_i64(id as int));
        },
        MyCallback::MakeUserGuest { id } => {
            lemma_parse_i64_digits(id as int);
            assert(cs != "ca"@);
            assert(cs.subrange(0, 3) =~= mg);
            assert(cs.subrange(3, cs.len() as int) =~= dec_digits_i64(id as int));
        },
        MyCallback::DeleteUser { id } => {
            lemma_parse_i64_digits(id as int);
            assert(cs != "ca"@);
            assert(cs.subrange(0, 3) =~= du);
            assert(cs.subrange(3, cs.len() as int) =~= dec_digits_i64(id as int));
        },
        MyCallback::PublishNow { id } => {
            lemma_dec_digits(id as nat);
            assert(cs != "ca"@);
            assert(cs.subrange(0, 3) =~= pn);
            assert(cs.subrange(3, cs.len() as int) =~= dec_digits(id as nat));
        },
        MyCallback::DeletePost { id } => {
            lemma_dec_digits(id as nat);
            assert(cs != "ca"@);
            assert(cs.subrange(0, 3) =~= dp);
            assert(cs.subrange(3, cs.len() as int) =~= dec_digits(id as nat));
        },
        MyCallback::SetPublishDate { id } => {
            lemma_dec_digits(id as nat);
            assert(cs != "ca"@);
            assert(cs.subrange(0, 3) =~= sd);
            assert(cs.subrange(3, cs.len() as int) =~= dec_digits(id as nat));
        },
        MyCallback::Drafts { author_id } => {
            lemma_parse_i64_digits(author_id as int);
            assert(cs != "ca"@);
            assert(cs.subrange(0, 3) =~= dr);
            assert(cs.subrange(3, cs.len() as int) =~= dec_digits_i64(author_id as int));
        },
        MyCallback::Pending { author_id } => {
            lemma_parse_i64_digits(author_id as int);
            assert(cs != "ca"@);
            assert(cs.subrange(0, 3) =~= pe);
            assert(cs.subrange(3, cs.len() as int) =~= dec_digits_i64(author_id as int));
        },
        MyCallback::Published { author_id } => {
            lemma_parse_i64_digits(author_id as int);
            assert(cs != "ca"@);
            assert(cs.subrange(0, 3) =~= pu);
            assert(cs.subrange(3, cs.len() as int) =~= dec_digits_i64(author_id as int));
        },
        MyCallback::PostsNextPage { author_id, status, page } => {
            lemma_triplet_round_trip(author_id, status, page, true);
            assert(cs != "ca"@);
            assert(cs.subrange(0, 3) =~= nx);
            assert(cs.subrange(3, cs.len() as int) =~= dec_digits_i64(author_id as int) + ":"@
                + status_digits(status) + ":"@ + dec_digits(page as nat));
        },
        MyCallback::PostsPreviousPage { author_id, status, page } => {
            lemma_triplet_round_trip(author_id, status, page, false);
            assert(cs != "ca"@);
            assert(cs.subrange(0, 3) =~= pv);
            assert(cs.subrange(3, cs.len() as int) =~= dec_digits_i64(author_id as int) + ":"@
                + status_digits(status) + ":"@ + dec_digits(page as nat));
        },
    }
}

/// The triplet payload of author, status code and page reads back as the
/// triple it was written from.
proof fn lemma_triplet_round_trip(author_id: i64, status: Status, page: u32, next: bool)
    ensures
        spec_parse_triplet(
            dec_digits_i64(author_id as int) + ":"@ + status_digits(status) + ":"@ + dec_digits(
                page as nat,
            ),
        ) == Some((author_id, status, page)),
{
    reveal_strlit(":");
    let a = dec_digits_i64(author_id as int);
    let c = status_digits(status);
    let p = dec_digits(page as nat);
    let data = a + ":"@ + c + ":"@ + p;
    lemma_parse_i64_digits(author_id as int);
    lemma_dec_digits(status_code(status) as nat);
    lemma_digits_no_colon(c);
    lemma_dec_digits(page as nat);
    lemma_digits_no_colon(p);
    assert(":"@.len() == 1);
    assert(":"@[0] == ':');
    let k1 = a.len() as int;
    let k2 = k1 + 1 + c.len() as int;
    assert(data[k1] == ':');
    assert(data[k2] == ':');
    assert forall|j: int| 0 <= j < k1 implies data[j] != ':' by {
        assert(data[j] == a[j]);
    }
    lemma_first_colon_at(data, 0, k1);
    assert forall|j: int| k1 + 1 <= j < k2 implies data[j] != ':' by {
        assert(data[j] == c[j - (k1 + 1)]);
    }
    lemma_first_colon_at(data, k1 + 1, k2);
    assert forall|j: int| k2 + 1 <= j < data.len() implies data[j] != ':' by {
        assert(data[j] == p[j - (k2 + 1)]);
    }
    lemma_first_colon_at(data, k2 + 1, data.len() as int);
    assert(data.subrange(0, k1) =~= a);
    assert(data.subrange(k1 + 1, k2) =~= c);
    assert(data.subrange(k2 + 1, data.len() as int) =~= p);
    assert(0 <= dec_value(c) <= 3);
    assert(status_code(status) == 0 ==> status is Draft);
    assert(status_code(status) == 1 ==> status is Pending);
    assert(status_code(status) == 2 ==> status is Published);
    assert(status_code(status) == 3 ==> status is Abandoned);
}

/// Searching inside the data segment and inside the whole string agree:
/// the first colon of the segment sits `from` characters before the first
/// colon of the string region it was cut from.
proof fn lemma_first_colon_shift(cs: Seq<char>, from: int, to: int, i: int)
    requires
        0 <= from <= i <= to == cs.len(),
    ensures
        first_colon_from(cs.subrange(from, to), i - from) == first_colon_from(cs, i) - from,
    decreases to - i,
{
    let sub = cs.subrange(from, to);
    if i >= to {
    } else if cs[i] == ':' {
        assert(sub[i - from] == cs[i]);
    } else {
        assert(sub[i - from] == cs[i]);
        lemma_first_colon_shift(cs, from, to, i + 1);
    }
}

} // verus!
