//! How the picker shows the records.

pub mod filename;
pub mod jump_keymaps;
pub mod window_grid_size;

use crate::error::{Error, InputError};
use filename::Filename;
use jump_keymaps::JumpKeymapList;
use vstd::prelude::*;
use vstd::string::*;
use window_grid_size::WindowGridSize;

verus! {

/// How the picker shows the records.
#[derive(Debug)]
pub struct PickerConfig {
    pub max_windows: WindowGridSize,
    pub jump_keys: JumpKeymapList,
    pub filename: Filename,
}

impl Default for PickerConfig {
    fn default() -> (conf: Self)
        ensures
            conf.max_windows@ == 6,
            conf.jump_keys@.len() == 10,
            conf.filename == (Filename { enable: true, depth: 2 }),
    {
        Self {
            max_windows: WindowGridSize::default(),
            jump_keys: JumpKeymapList::default(),
            filename: Filename::default(),
        }
    }
}

impl PickerConfig {
    /// The configuration made of what the user has set, with the default for
    /// what is not set. It is refused where there are fewer jump keys than
    /// windows.
    pub fn try_new(
        max_windows: Option<WindowGridSize>,
        jump_keys: Option<JumpKeymapList>,
        filename: Option<Filename>,
    ) -> (r: Result<Self, Error>)
        ensures
            ({
                let windows = match max_windows {
                    Some(w) => w@,
                    None => 6,
                };
                let keys = match jump_keys {
                    Some(k) => k@.len(),
                    None => 10,
                };
                &&& r is Ok == (windows <= keys)
                &&& r matches Ok(conf) ==> {
                    &&& conf.max_windows@ == windows
                    &&& conf.jump_keys@.len() == keys
                    &&& jump_keys matches Some(k) ==> conf.jump_keys == k
                    &&& conf.filename == match filename {
                        Some(f) => f,
                        None => Filename { enable: true, depth: 2 },
                    }
                }
                &&& r matches Err(e) ==> e.spec_is_other(
                    "length of jump_keys must be equal or bigger that the max_windows value"@,
                )
            }),
    {
        let max_windows = match max_windows {
            Some(w) => w,
            None => WindowGridSize::default(),
        };
        let jump_keys = match jump_keys {
            Some(k) => k,
            None => JumpKeymapList::default(),
        };
        if max_windows.to_usize() > jump_keys.len() {
            return Err(
                Error::Input(
                    InputError::Other(
                        String::from_str(
                            "length of jump_keys must be equal or bigger that the max_windows value",
                        ),
                    ),
                ),
            );
        }
        let filename = match filename {
            Some(f) => f,
            None => Filename::default(),
        };
        Ok(Self { max_windows, jump_keys, filename })
    }
}

} // verus!
