use vstd::prelude::*;

use crate::error::DecodeError;
use crate::post::res_view;
use crate::wire::{opt_flag, spec_opt_flag, RawFlag};

verus! {

/// Per-action waiting times of a board, in seconds.
#[derive(Debug, Copy, Clone, PartialEq, Eq)]
pub struct Cooldowns {
    pub threads: usize,
    pub replies: usize,
    pub images: usize,
}

/// A board's static metadata.
#[derive(Debug, Clone, PartialEq)]
pub struct Board {
    pub title: String,
    /// The board's abbreviation, as it stands in paths (`mu`).
    pub abv: String,
    pub meta_description: String,
    pub is_archived: bool,
    /// The board is safe for work.
    pub is_sfw: bool,
    pub per_page: i32,
    pub pages: i32,
    pub max_filesize: usize,
    pub max_webm_filesize: usize,
    pub max_comment_chars: usize,
    pub max_webm_duration: usize,
    pub bump_limit: usize,
    pub image_limit: usize,
    pub cooldowns: Cooldowns,
}

/// The model of a `Board`.
pub struct BoardView {
    pub title: Seq<char>,
    pub abv: Seq<char>,
    pub meta_description: Seq<char>,
    pub is_archived: bool,
    pub is_sfw: bool,
    pub per_page: i32,
    pub pages: i32,
    pub max_filesize: usize,
    pub max_webm_filesize: usize,
    pub max_comment_chars: usize,
    pub max_webm_duration: usize,
    pub bump_limit: usize,
    pub image_limit: usize,
    pub cooldowns: Cooldowns,
}

impl View for Board {
    type V = BoardView;

    open spec fn view(&self) -> BoardView {
        BoardView {
            title: self.title@,
            abv: self.abv@,
            meta_description: self.meta_description@,
            is_archived: self.is_archived,
            is_sfw: self.is_sfw,
            per_page: self.per_page,
            pages: self.pages,
            max_filesize: self.max_filesize,
            max_webm_filesize: self.max_webm_filesize,
            max_comment_chars: self.max_comment_chars,
            max_webm_duration: self.max_webm_duration,
            bump_limit: self.bump_limit,
            image_limit: self.image_limit,
            cooldowns: self.cooldowns,
        }
    }
}

/// A raw board record; the two flags may be absent.
#[derive(Debug, Clone, PartialEq)]
pub struct BoardPre {
    pub title: String,
    pub abv: String,
    pub meta_description: String,
    pub is_archived: Option<RawFlag>,
    pub is_sfw: Option<RawFlag>,
    pub per_page: i32,
    pub pages: i32,
    pub max_filesize: usize,
    pub max_webm_filesize: usize,
    pub max_comment_chars: usize,
    pub max_webm_duration: usize,
    pub bump_limit: usize,
    pub image_limit: usize,
    pub cooldowns: Cooldowns,
}

/// The raw body of the board list.
#[derive(Debug, Clone, PartialEq)]
pub struct BoardsPre {
    pub boards: Vec<BoardPre>,
}

/// The board a raw record describes; absent flags read as false.
pub open spec fn spec_board(pre: BoardPre) -> Result<BoardView, DecodeError> {
    match spec_opt_flag(pre.is_archived) {
        Err(e) => Err(e),
        Ok(is_archived) => match spec_opt_flag(pre.is_sfw) {
            Err(e) => Err(e),
            Ok(is_sfw) => Ok(
                BoardView {
                    title: pre.title@,
                    abv: pre.abv@,
                    meta_description: pre.meta_description@,
                    is_archived,
                    is_sfw,
                    per_page: pre.per_page,
                    pages: pre.pages,
                    max_filesize: pre.max_filesize,
                    max_webm_filesize: pre.max_webm_filesize,
                    max_comment_chars: pre.max_comment_chars,
                    max_webm_duration: pre.max_webm_duration,
                    bump_limit: pre.bump_limit,
                    image_limit: pre.image_limit,
                    cooldowns: pre.cooldowns,
                },
            ),
        },
    }
}

/// Normalizes each board record in order; the first failure is the result.
pub open spec fn spec_boards(s: Seq<BoardPre>) -> Result<Seq<BoardView>, DecodeError>
    decreases s.len(),
{
    if s.len() == 0 {
        Ok(Seq::empty())
    } else {
        match spec_boards(s.drop_last()) {
            Err(e) => Err(e),
            Ok(bs) => match spec_board(s.last()) {
                Err(e) => Err(e),
                Ok(b) => Ok(bs.push(b)),
            },
        }
    }
}

pub open spec fn board_views(s: Seq<Board>) -> Seq<BoardView> {
    s.map_values(|b: Board| b@)
}

proof fn lemma_boards_err_prefix(s: Seq<BoardPre>, k: int)
    requires
        0 <= k <= s.len(),
        spec_boards(s.take(k)) is Err,
    ensures
        spec_boards(s) == spec_boards(s.take(k)),
    decreases s.len() - k,
{
    if k < s.len() {
        assert(s.take(k + 1).drop_last() =~= s.take(k));
        lemma_boards_err_prefix(s, k + 1);
    } else {
        assert(s.take(k) =~= s);
    }
}

impl Board {
    /// Builds a board from its raw record.
    pub fn from_pre(pre: &BoardPre) -> (r: Result<Board, DecodeError>)
        ensures
            res_view(r) == spec_board(*pre),
    {
        let is_archived = match opt_flag(&pre.is_archived) {
            Ok(b) => b,
            Err(e) => return Err(e),
        };
        let is_sfw = match opt_flag(&pre.is_sfw) {
            Ok(b) => b,
            Err(e) => return Err(e),
        };
        Ok(
            Board {
                title: pre.title.clone(),
                abv: pre.abv.clone(),
                meta_description: pre.meta_description.clone(),
                is_archived,
                is_sfw,
                per_page: pre.per_page,
                pages: pre.pages,
                max_filesize: pre.max_filesize,
                max_webm_filesize: pre.max_webm_filesize,
                max_comment_chars: pre.max_comment_chars,
                max_webm_duration: pre.max_webm_duration,
                bump_limit: pre.bump_limit,
                image_limit: pre.image_limit,
                cooldowns: pre.cooldowns,
            },
        )
    }

    /// Builds the board list from its raw body, in order.
    pub fn list_from_pre(pre: &BoardsPre) -> (r: Result<Vec<Board>, DecodeError>)
        ensures
            match r {
                Ok(v) => spec_boards(pre.boards@) == Ok::<Seq<BoardView>, DecodeError>(
                    board_views(v@),
                ),
                Err(e) => spec_boards(pre.boards@) == Err::<Seq<BoardView>, DecodeError>(e),
            },
    {
        let pres = &pre.boards;
        let mut out: Vec<Board> = Vec::new();
        let mut i: usize = 0;
        assert(pres@.take(0) =~= Seq::<BoardPre>::empty());
        assert(board_views(out@) =~= Seq::<BoardView>::empty());
        while i < pres.len()
            invariant
                pres == &pre.boards,
                i <= pres@.len(),
                spec_boards(pres@.take(i as int)) == Ok::<Seq<BoardView>, DecodeError>(
                    board_views(out@),
                ),
            decreases pres@.len() - i,
        {
            assert(pres@.take(i as int + 1).drop_last() =~= pres@.take(i as int));
            assert(pres@.take(i as int + 1).last() == pres@[i as int]);
            let ghost before = out@;
            match Board::from_pre(&pres[i]) {
                Ok(b) => {
                    out.push(b);
                    assert(board_views(out@) =~= board_views(before).push(b@));
                },
                Err(e) => {
                    proof {
                        lemma_boards_err_prefix(pres@, i as int + 1);
                    }
                    return Err(e);
                },
            }
            i = i + 1;
        }
        assert(pres@.take(i as int) =~= pres@);
        Ok(out)
    }
}

} // verus!
