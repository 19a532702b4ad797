//! The application-facing facade around the prefetch cache.
//!
//! [`AppLogic`] owns the [`CircularBuffer`] together with the names of the
//! two target folders of the surrounding application's file actions and the
//! name of the most recently displayed item. Navigation and deletion are
//! forwarded to the buffer; the returned [`LoadRequest`]s are handed to the
//! surrounding application, which resolves item names to files, decodes them
//! and stores the pixels.

use vstd::prelude::*;

use crate::circ_buf::BufModel;
use crate::circ_buf::CacheError;
use crate::circ_buf::CircularBuffer;
use crate::circ_buf::ImageStat;
use crate::circ_buf::LoadRequest;
use crate::circ_buf::advance_model;
use crate::circ_buf::advance_load;
use crate::circ_buf::can_advance;
use crate::circ_buf::can_delete;
use crate::circ_buf::can_retreat;
use crate::circ_buf::delete_load;
use crate::circ_buf::delete_model;
use crate::circ_buf::initial_model;
use crate::circ_buf::inv;
use crate::circ_buf::load_opt_matches;
use crate::circ_buf::retreat_load;
use crate::circ_buf::retreat_model;

verus! {

/// The mathematical state of an [`AppLogic`].
#[verifier::ext_equal]
pub struct LogicModel {
    /// The prefetch cache's state.
    pub buf: BufModel,
    /// Name of the folder that the application's keep-a-copy action targets.
    pub edit_folder: Seq<char>,
    /// Name of the folder that the application's move-to-bin action targets.
    pub delete_folder: Seq<char>,
    /// Name of the most recently displayed item.
    pub current_name: Seq<char>,
}

/// Outcome of a file action on the current item, reported for user-visible
/// notice.
#[derive(Debug, PartialEq, Eq, Structural, Clone, Copy)]
pub enum Message {
    /// The copy into the keep folder succeeded, raw companion included.
    EditSuccessful,
    /// The image file could not be copied into the keep folder.
    EditFailed,
    /// The image was copied but it has no raw companion file.
    EditNoRAW,
    /// The keep folder already holds a copy of the image; nothing was copied.
    EditAlreadyDone,
    /// The move into the bin folder succeeded, raw companion included.
    BinSuccessful,
    /// The image file could not be moved into the bin folder.
    BinFailed,
    /// The image was moved but it has no raw companion file.
    BinNoRAW,
    /// The image file was gone already; nothing was moved.
    BinAlreadyDone,
}

/// The message of the keep-a-copy action. The copy is skipped when the
/// destination already exists; a failure on the image file itself is an
/// error, while a missing raw companion is only reported.
pub fn edit_outcome(dest_exists: bool, main_copied: bool, raw_copied: bool) -> (r: Message)
    ensures
        r == (if dest_exists {
            Message::EditAlreadyDone
        } else if !main_copied {
            Message::EditFailed
        } else if !raw_copied {
            Message::EditNoRAW
        } else {
            Message::EditSuccessful
        }),
{
    if dest_exists {
        Message::EditAlreadyDone
    } else if !main_copied {
        Message::EditFailed
    } else if !raw_copied {
        Message::EditNoRAW
    } else {
        Message::EditSuccessful
    }
}

/// The message of the move-to-bin action, and whether the item actually left
/// the folder — only then must it also leave the cache. An item whose file
/// was gone already, or could not be moved, stays in the cache.
pub fn bin_outcome(src_exists: bool, main_moved: bool, raw_moved: bool) -> (r: (Message, bool))
    ensures
        r == (if !src_exists {
            (Message::BinAlreadyDone, false)
        } else if !main_moved {
            (Message::BinFailed, false)
        } else if !raw_moved {
            (Message::BinNoRAW, true)
        } else {
            (Message::BinSuccessful, true)
        }),
{
    if !src_exists {
        (Message::BinAlreadyDone, false)
    } else if !main_moved {
        (Message::BinFailed, false)
    } else if !raw_moved {
        (Message::BinNoRAW, true)
    } else {
        (Message::BinSuccessful, true)
    }
}

/// The application-facing facade: the prefetch cache plus the mutable bits
/// of application configuration that belong to its actions.
pub struct AppLogic {
    buffer: CircularBuffer,
    edit_folder: String,
    delete_folder: String,
    current_name: String,
}

impl View for AppLogic {
    type V = LogicModel;

    closed spec fn view(&self) -> LogicModel {
        LogicModel {
            buf: self.buffer@,
            edit_folder: self.edit_folder@,
            delete_folder: self.delete_folder@,
            current_name: self.current_name@,
        }
    }
}

impl AppLogic {
    /// Builds the facade over an already scanned, ordered list of item names.
    /// Fails when the list is empty: the cache cannot be built over nothing.
    pub fn new(
        pic_list: Vec<String>,
        capacity: usize,
        edit_folder: String,
        delete_folder: String,
    ) -> (r: Result<AppLogic, CacheError>)
        requires
            2 <= capacity,
            capacity * 2 <= usize::MAX,
        ensures
            match r {
                Ok(l) => {
                    &&& pic_list@.len() >= 1
                    &&& l@.buf == initial_model(pic_list.deep_view(), capacity as int)
                    &&& inv(l@.buf)
                    &&& l@.edit_folder == edit_folder@
                    &&& l@.delete_folder == delete_folder@
                    &&& l@.current_name == Seq::<char>::empty()
                },
                Err(e) => pic_list@.len() == 0 && e == CacheError::EmptyCollection,
            },
    {
        let buffer = match CircularBuffer::new(pic_list, capacity) {
            Ok(b) => b,
            Err(e) => {
                return Err(e);
            },
        };
        Ok(
            AppLogic {
                buffer,
                edit_folder,
                delete_folder,
                current_name: String::new(),
            },
        )
    }

    /// Renames the folder of the keep-a-copy action.
    pub fn set_edit_folder(&mut self, name: String)
        ensures
            final(self)@ == (LogicModel { edit_folder: name@, ..old(self)@ }),
    {
        self.edit_folder = name;
    }

    /// The folder name of the keep-a-copy action.
    pub fn get_edit_folder(&self) -> (r: String)
        ensures
            r@ == self@.edit_folder,
    {
        self.edit_folder.clone()
    }

    /// Renames the folder of the move-to-bin action.
    pub fn set_delete_folder(&mut self, name: String)
        ensures
            final(self)@ == (LogicModel { delete_folder: name@, ..old(self)@ }),
    {
        self.delete_folder = name;
    }

    /// The folder name of the move-to-bin action.
    pub fn get_delete_folder(&self) -> (r: String)
        ensures
            r@ == self@.delete_folder,
    {
        self.delete_folder.clone()
    }

    /// Steps the cache to the next item; see [`CircularBuffer::next_img`].
    pub fn next_img(&mut self) -> (r: (bool, Option<LoadRequest>))
        requires
            inv(old(self)@.buf),
        ensures
            inv(final(self)@.buf),
            r.0 == can_advance(old(self)@.buf),
            !r.0 ==> *final(self) == *old(self) && r.1 is None,
            r.0 ==> final(self)@ == (LogicModel { buf: advance_model(old(self)@.buf), ..old(self)@ }),
            r.0 ==> load_opt_matches(r.1, advance_load(old(self)@.buf), old(self)@.buf),
    {
        let r = self.buffer.next_img();
        proof {
            if r.0 {
                assert(self@ =~= (LogicModel { buf: advance_model(old(self)@.buf), ..old(self)@ }));
            }
        }
        r
    }

    /// Steps the cache to the previous item; see [`CircularBuffer::prev_img`].
    pub fn prev_img(&mut self) -> (r: (bool, Option<LoadRequest>))
        requires
            inv(old(self)@.buf),
        ensures
            inv(final(self)@.buf),
            r.0 == can_retreat(old(self)@.buf),
            !r.0 ==> *final(self) == *old(self) && r.1 is None,
            r.0 ==> final(self)@ == (LogicModel { buf: retreat_model(old(self)@.buf), ..old(self)@ }),
            r.0 ==> load_opt_matches(r.1, retreat_load(old(self)@.buf), old(self)@.buf),
    {
        let r = self.buffer.prev_img();
        proof {
            if r.0 {
                assert(self@ =~= (LogicModel { buf: retreat_model(old(self)@.buf), ..old(self)@ }));
            }
        }
        r
    }

    /// Removes the current item from the cache's item list; see
    /// [`CircularBuffer::delete`]. The surrounding application moves the file
    /// itself beforehand and tears down the view when this returns false.
    pub fn delete(&mut self) -> (r: (bool, Option<LoadRequest>))
        requires
            inv(old(self)@.buf),
        ensures
            r.0 == can_delete(old(self)@.buf),
            !r.0 ==> final(self)@.buf.pics.len() == 0 && r.1 is None,
            r.0 ==> inv(final(self)@.buf),
            r.0 ==> final(self)@ == (LogicModel { buf: delete_model(old(self)@.buf), ..old(self)@ }),
            r.0 ==> load_opt_matches(
                r.1,
                delete_load(old(self)@.buf),
                delete_model(old(self)@.buf),
            ),
    {
        let r = self.buffer.delete();
        proof {
            if r.0 {
                assert(self@ =~= (LogicModel { buf: delete_model(old(self)@.buf), ..old(self)@ }));
            }
        }
        r
    }

    /// The background loads filling the rest of the initial window; see
    /// [`CircularBuffer::init`].
    pub fn init(&self) -> (r: Vec<LoadRequest>)
        requires
            inv(self@.buf),
        ensures
            r@.len() == self@.buf.size - 1,
            forall|k: int|
                0 <= k < r@.len() ==> #[trigger] r@[k].buf_pos == k + 1 && r@[k].elem@
                    == self@.buf.pics[k + 1],
    {
        self.buffer.init()
    }

    /// Display metadata of the current item, remembered as the name the
    /// application's file actions operate on.
    pub fn get_img(&mut self) -> (r: ImageStat)
        requires
            inv(old(self)@.buf),
        ensures
            r.name@ == old(self)@.buf.pics[old(self)@.buf.cnt],
            r.number == old(self)@.buf.cnt + 1,
            r.out_of == old(self)@.buf.pics.len(),
            final(self)@ == (LogicModel { current_name: r.name@, ..old(self)@ }),
    {
        let img = self.buffer.get_elem();
        self.current_name = img.name.clone();
        proof {
            assert(self@ =~= (LogicModel { current_name: img.name@, ..old(self)@ }));
        }
        img
    }

    /// Display metadata right after construction; see
    /// [`CircularBuffer::get_first_elem`].
    pub fn get_first_img(&mut self) -> (r: ImageStat)
        requires
            inv(old(self)@.buf),
        ensures
            r.name@ == old(self)@.buf.pics[0],
            r.number == old(self)@.buf.cnt + 1,
            r.out_of == old(self)@.buf.pics.len(),
            final(self)@ == (LogicModel { current_name: r.name@, ..old(self)@ }),
    {
        let img = self.buffer.get_first_elem();
        self.current_name = img.name.clone();
        proof {
            assert(self@ =~= (LogicModel { current_name: img.name@, ..old(self)@ }));
        }
        img
    }

    /// The physical slot id that currently holds the displayed item; the
    /// surrounding application reads that slot's pixels to render.
    pub fn current_buffer_idx(&self) -> (r: usize)
        requires
            inv(self@.buf),
        ensures
            r as int == self@.buf.idxs[self@.buf.cur],
    {
        self.buffer.current_buffer_idx()
    }
}

} // verus!
