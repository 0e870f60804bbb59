//! The options of `open`.

use crate::common_types::text::{spec_parse_i32, str_eq};
use crate::config::picker::window_grid_size::{spec_grid_size_fault, WindowGridSize};
use crate::error::{Error, InputError};
use crate::state::record::TypeRecord;
use crate::viml::compass_args::CompassArgs;
use vstd::prelude::*;
use vstd::string::*;

verus! {

/// A kind of record that the picker can be told to show.
#[derive(Debug, Clone, Copy, PartialEq, Eq, Structural)]
pub enum RecordFilter {
    Change,
}

/// The kinds of record to show, or `None` for all, and the most windows to
/// open.
#[derive(Debug, Clone)]
pub struct OpenOptions {
    pub record_types: Option<Vec<RecordFilter>>,
    pub max_windows: WindowGridSize,
}

/// What the words of an `open` command ask for. The kinds of record are still
/// the text that names them.
#[derive(Debug, Clone, Copy)]
pub struct OpenRequest<'a> {
    pub record_types: Option<&'a str>,
    pub max_windows: WindowGridSize,
}

impl RecordFilter {
    /// The filter that the word `value` names.
    pub fn try_from_str(value: &str) -> (r: Result<Self, Error>)
        ensures
            r is Ok == (value@ == "change"@),
            r matches Ok(f) ==> f == RecordFilter::Change,
            r matches Err(e) ==> e.spec_is_arguments("unkwnown filter provided: "@ + value@),
    {
        if str_eq(value, "change") {
            Ok(RecordFilter::Change)
        } else {
            Err(
                Error::Input(
                    InputError::FunctionArguments(
                        String::from_str("unkwnown filter provided: ").concat(value),
                    ),
                ),
            )
        }
    }

    /// The filter that lets records of the kind `typ` through.
    pub fn from_type(typ: TypeRecord) -> (f: Self)
        ensures
            f == RecordFilter::Change,
    {
        match typ {
            TypeRecord::Change(_) => Self::Change,
        }
    }

    /// Whether a record of the kind `typ` is shown under the filters `types`:
    /// under none all are, else those that one of the filters lets through.
    pub fn admits(types: &Option<Vec<RecordFilter>>, typ: TypeRecord) -> (b: bool)
        ensures
            b == match *types {
                Some(filters) => exists|i: int|
                    0 <= i < filters@.len() && (#[trigger] filters@[i]) == RecordFilter::Change,
                None => true,
            },
    {
        match types {
            Some(filters) => {
                let want = Self::from_type(typ);
                let mut i: usize = 0;
                while i < filters.len()
                    invariant
                        i <= filters@.len(),
                        want == RecordFilter::Change,
                        *types == Some(*filters),
                        forall|k: int| 0 <= k < i ==> (#[trigger] filters@[k]) != want,
                    decreases filters@.len() - i,
                {
                    if filters[i] == want {
                        return true;
                    }
                    i += 1;
                }
                false
            },
            None => true,
        }
    }
}

impl OpenOptions {
    /// The options of a user who gave none, but for the most windows.
    pub fn with_max_windows(max_windows: WindowGridSize) -> (o: Self)
        ensures
            o.record_types is None,
            o.max_windows == max_windows,
    {
        Self { record_types: None, max_windows }
    }

    /// What the words of an `open` command ask for; `default_max_windows`
    /// stands in where the words name no number of windows.
    pub fn request<'a>(value: &CompassArgs<'a>, default_max_windows: WindowGridSize) -> (r: Result<
        OpenRequest<'a>,
        Error,
    >)
        ensures
            match value.spec_get("max_windows"@) {
                Some(text) => match spec_parse_i32(text) {
                    Some(num) if spec_grid_size_fault(num as int) is None => r matches Ok(o)
                        && o.max_windows@ == num,
                    _ => r is Err,
                },
                None => r matches Ok(o) && o.max_windows == default_max_windows,
            },
            r matches Ok(o) ==> match value.spec_get("record_types"@) {
                Some(text) => o.record_types matches Some(t) && t@ == text,
                None => o.record_types is None,
            },
    {
        let record_types = value.get("record_types");
        let max_windows = match value.get("max_windows") {
            Some(text) => match WindowGridSize::try_from_str(text) {
                Ok(size) => size,
                Err(e) => return Err(e),
            },
            None => default_max_windows,
        };
        Ok(OpenRequest { record_types, max_windows })
    }
}

} // verus!
