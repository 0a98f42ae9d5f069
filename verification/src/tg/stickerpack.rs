//! A Telegram sticker pack, the recognition of pack urls and the aggregation
//! of a pack's import.

use vstd::prelude::*;
use vstd::string::*;
use super::sticker::Sticker;
use super::TgResponse;
use crate::error::{Error, InvalidPackUrl, TelgramApiError};
use crate::matrix::stickerpack::TgPackInfo;
use crate::text::{after, lemma_prefix_split, reversed, strip_prefix};

verus! {

/// The pack name that a pack url stands for: what follows the first of the
/// three accepted prefixes that the url starts with, tried in this order.
pub open spec fn pack_name_of(url: Seq<char>) -> Option<Seq<char>> {
    if "https://t.me/addstickers/"@.is_prefix_of(url) {
        Some(after(url, "https://t.me/addstickers/"@.len()))
    } else if "t.me/addstickers/"@.is_prefix_of(url) {
        Some(after(url, "t.me/addstickers/"@.len()))
    } else if "tg://addstickers?set="@.is_prefix_of(url) {
        Some(after(url, "tg://addstickers?set="@.len()))
    } else {
        None
    }
}

/// Convert a Telegram sticker pack url to the pack's name.
///
/// The url must start with `https://t.me/addstickers/`, `t.me/addstickers/` or
/// `tg://addstickers?set=`; any other string is rejected, and the error holds
/// that string.
pub fn pack_url_to_name(url: &str) -> (res: Result<&str, InvalidPackUrl>)
    ensures
        match res {
            Ok(name) => pack_name_of(url@) == Some(name@),
            Err(e) => pack_name_of(url@) is None && e.0@ == url@,
        },
{
    if let Some(name) = strip_prefix(url, "https://t.me/addstickers/") {
        proof {
            lemma_prefix_split(url@, "https://t.me/addstickers/"@, name@);
        }
        return Ok(name);
    }
    if let Some(name) = strip_prefix(url, "t.me/addstickers/") {
        proof {
            lemma_prefix_split(url@, "t.me/addstickers/"@, name@);
        }
        return Ok(name);
    }
    if let Some(name) = strip_prefix(url, "tg://addstickers?set=") {
        proof {
            lemma_prefix_split(url@, "tg://addstickers?set="@, name@);
        }
        return Ok(name);
    }
    Err(InvalidPackUrl(String::from_str(url)))
}

/// A sticker pack as the bot api describes it.
#[derive(Debug)]
pub struct StickerPack {
    pub name: String,
    pub title: String,
    pub is_animated: bool,
    pub is_video: bool,
    pub stickers: Vec<Sticker>,
}

/// How the import of one sticker ended.
#[derive(Debug)]
pub enum ImportOutcome {
    Imported(crate::matrix::sticker::Sticker),
    /// The sticker was left out on purpose; this is no failure.
    Filtered,
    Failed(Error),
}

/// The stickers that were imported, in the order of their outcomes.
pub open spec fn successes(outcomes: Seq<ImportOutcome>) -> Seq<crate::matrix::sticker::Sticker>
    decreases outcomes.len(),
{
    if outcomes.len() == 0 {
        Seq::empty()
    } else {
        match outcomes.last() {
            ImportOutcome::Imported(sticker) => successes(outcomes.drop_last()).push(sticker),
            _ => successes(outcomes.drop_last()),
        }
    }
}

/// The failures, each with the position of its outcome, in their order.
pub open spec fn failures(outcomes: Seq<ImportOutcome>) -> Seq<(usize, Error)>
    decreases outcomes.len(),
{
    if outcomes.len() == 0 {
        Seq::empty()
    } else {
        match outcomes.last() {
            ImportOutcome::Failed(error) => failures(outcomes.drop_last()).push(
                ((outcomes.len() - 1) as usize, error),
            ),
            _ => failures(outcomes.drop_last()),
        }
    }
}

/// Every failure names the position of an outcome that failed, and holds its
/// error.
pub proof fn lemma_failures_name_their_place(outcomes: Seq<ImportOutcome>, k: int)
    requires
        outcomes.len() <= usize::MAX,
        0 <= k < failures(outcomes).len(),
    ensures
        0 <= failures(outcomes)[k].0 < outcomes.len(),
        outcomes[failures(outcomes)[k].0 as int] == ImportOutcome::Failed(failures(outcomes)[k].1),
    decreases outcomes.len(),
{
    let rest = outcomes.drop_last();
    if outcomes.last() is Failed && k == failures(rest).len() {
    } else {
        lemma_failures_name_their_place(rest, k);
    }
}

/// If every sticker was imported, the pack holds as many stickers as there
/// were outcomes, and nothing failed.
pub proof fn lemma_all_imported(outcomes: Seq<ImportOutcome>)
    requires
        forall|i: int| 0 <= i < outcomes.len() ==> outcomes[i] is Imported,
    ensures
        successes(outcomes).len() == outcomes.len(),
        failures(outcomes).len() == 0,
    decreases outcomes.len(),
{
    if outcomes.len() > 0 {
        lemma_all_imported(outcomes.drop_last());
    }
}

/// The failure of one sticker leaves the others alone: if exactly the outcome
/// at `place` failed and all others were imported, all others are in the pack,
/// and the only failure is that of `place`, with its error.
pub proof fn lemma_single_failure_isolated(outcomes: Seq<ImportOutcome>, place: int)
    requires
        0 <= place < outcomes.len() <= usize::MAX,
        outcomes[place] is Failed,
        forall|i: int| 0 <= i < outcomes.len() && i != place ==> outcomes[i] is Imported,
    ensures
        successes(outcomes).len() == outcomes.len() - 1,
        failures(outcomes) == seq![(place as usize, outcomes[place]->Failed_0)],
    decreases outcomes.len(),
{
    let rest = outcomes.drop_last();
    if place == outcomes.len() - 1 {
        lemma_all_imported(rest);
    } else {
        lemma_single_failure_isolated(rest, place);
    }
    assert(failures(outcomes) =~= seq![(place as usize, outcomes[place]->Failed_0)]);
}

/// A pack of which no sticker was imported comes out empty, whether its
/// stickers failed or were left out.
pub proof fn lemma_none_imported(outcomes: Seq<ImportOutcome>)
    requires
        forall|i: int| 0 <= i < outcomes.len() ==> !(outcomes[i] is Imported),
    ensures
        successes(outcomes).len() == 0,
    decreases outcomes.len(),
{
    if outcomes.len() > 0 {
        lemma_none_imported(outcomes.drop_last());
    }
}

impl StickerPack {
    /// The pack that an answer of the bot api describes. Every sticker is told
    /// the name of the pack and its position in it. An answer that is not a
    /// success is an error with the code and description of the answer.
    pub fn get(response: TgResponse<StickerPack>) -> (res: Result<StickerPack, Error>)
        ensures
            match response {
                TgResponse::Failure { error_code, description } => res == Err::<
                    StickerPack,
                    Error,
                >(Error::Telegram(TelgramApiError { error_code, description })),
                TgResponse::Success { result } => res matches Ok(pack) && pack.name == result.name
                    && pack.title == result.title && pack.is_animated == result.is_animated
                    && pack.is_video == result.is_video && pack.stickers@.len()
                    == result.stickers@.len() && forall|i: int|
                    0 <= i < result.stickers@.len() ==> #[trigger] pack.stickers@[i] == (Sticker {
                        pack_name: result.name,
                        positon: i as usize,
                        ..result.stickers@[i]
                    }),
            },
    {
        let result = match response {
            TgResponse::Success { result } => result,
            TgResponse::Failure { error_code, description } => {
                return Err(Error::Telegram(TelgramApiError { error_code, description }));
            },
        };
        let mut stickers: Vec<Sticker> = Vec::new();
        let mut i: usize = 0;
        while i < result.stickers.len()
            invariant
                i <= result.stickers.len(),
                stickers@.len() == i,
                forall|k: int|
                    0 <= k < i ==> #[trigger] stickers@[k] == (Sticker {
                        pack_name: result.name,
                        positon: k as usize,
                        ..result.stickers@[k]
                    }),
            decreases result.stickers.len() - i,
        {
            stickers.push(result.stickers[i].placed(&result.name, i));
            i += 1;
        }
        Ok(
            StickerPack {
                name: result.name,
                title: result.title,
                is_animated: result.is_animated,
                is_video: result.is_video,
                stickers,
            },
        )
    }

    /// Put the outcomes of the stickers' imports together to the imported pack.
    ///
    /// The pack holds every imported sticker, in the order of the outcomes. It
    /// is returned as a success if no sticker failed. If some failed, the pack
    /// of the others is returned as an error, together with the position of
    /// each failed sticker and its error: one sticker's failure costs no other
    /// sticker.
    pub fn import(&self, outcomes: Vec<ImportOutcome>) -> (res: Result<
        crate::matrix::stickerpack::StickerPack,
        (crate::matrix::stickerpack::StickerPack, Vec<(usize, Error)>),
    >)
        ensures
            res is Ok <==> failures(outcomes@).len() == 0,
            ({
                let pack = match res {
                    Ok(pack) => pack,
                    Err(partial) => partial.0,
                };
                &&& pack.title == self.title
                &&& pack.id@ == "tg_name_"@ + self.name@
                &&& pack.tg_pack == Some(TgPackInfo { name: self.name, title: self.title })
                &&& pack.stickers@ == successes(outcomes@)
            }),
            res matches Err(partial) ==> partial.1@ == failures(outcomes@),
    {
        let ghost all = outcomes@;
        let total: usize = outcomes.len();
        let mut rest = reversed(outcomes);
        let mut ok_stickers: Vec<crate::matrix::sticker::Sticker> = Vec::new();
        let mut err_stickers: Vec<(usize, Error)> = Vec::new();
        let mut i: usize = 0;
        while rest.len() > 0
            invariant
                all.len() == total,
                i + rest@.len() == total,
                forall|j: int| 0 <= j < rest@.len() ==> rest@[j] == all[all.len() - 1 - j],
                ok_stickers@ == successes(all.subrange(0, i as int)),
                err_stickers@ == failures(all.subrange(0, i as int)),
            decreases rest@.len(),
        {
            let outcome = rest.pop();
            proof {
                assert(outcome == Some(all[i as int]));
                assert(all.subrange(0, i + 1).drop_last() =~= all.subrange(0, i as int));
            }
            match outcome {
                Some(ImportOutcome::Imported(sticker)) => ok_stickers.push(sticker),
                Some(ImportOutcome::Failed(error)) => err_stickers.push((i, error)),
                _ => {},
            }
            i += 1;
        }
        assert(all.subrange(0, i as int) =~= all);
        let stickerpack = crate::matrix::stickerpack::StickerPack {
            title: self.title.clone(),
            id: String::from_str("tg_name_").concat(self.name.as_str()),
            tg_pack: Some(TgPackInfo { name: self.name.clone(), title: self.title.clone() }),
            stickers: ok_stickers,
        };
        if err_stickers.len() == 0 {
            Ok(stickerpack)
        } else {
            Err((stickerpack, err_stickers))
        }
    }
}

} // verus!
