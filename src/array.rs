//! Bounds-tracked arrays of dynamic values, as argument lists cross the
//! invocation boundary.

use vstd::prelude::*;
use crate::error::ClrError;
use crate::variant::{DynValue, Variant, DISP_E_BADINDEX};
use crate::wide::{encode_wide, utf16_encode};

verus! {

/// Why an array cannot be built with the requested bounds.
pub const BOUNDS_MESSAGE: &'static str = "array bounds do not fit a 32-bit index";

/// An ordered, heterogeneous sequence of dynamic values whose first element
/// has index `lower` and whose last has index `lower + len - 1`.
#[derive(Debug, Clone)]
pub struct SafeArray {
    pub lower: i32,
    pub items: Vec<Variant>,
}

/// What each element of a vector of values holds.
pub open spec fn values_of(items: Seq<Variant>) -> Seq<DynValue> {
    items.map_values(|v: Variant| v@)
}

impl SafeArray {
    /// Both bounds fit the native 32-bit index.
    pub open spec fn wf(&self) -> bool {
        i32::MIN <= self.lower + self.items@.len() - 1 <= i32::MAX
    }

    /// The index of the last element (one below `lower` when empty).
    pub open spec fn upper(&self) -> int {
        self.lower + self.items@.len() - 1
    }

    /// An array of exactly the given values, indexed from zero.
    pub fn new(items: Vec<Variant>) -> (r: SafeArray)
        requires
            items@.len() <= i32::MAX,
        ensures
            r.wf(),
            r.lower == 0,
            r.items@ == items@,
    {
        SafeArray { lower: 0, items }
    }

    /// An array whose first element has index `lower`, or a `SafeArrayError`
    /// when its last index would not fit the native index.
    pub fn with_lower(lower: i32, items: Vec<Variant>) -> (r: Result<SafeArray, ClrError>)
        ensures
            i32::MIN <= lower + items@.len() - 1 <= i32::MAX ==> (r matches Ok(a) && a.wf()
                && a.lower == lower && a.items@ == items@),
            !(i32::MIN <= lower + items@.len() - 1 <= i32::MAX) ==> (r matches Err(
                ClrError::SafeArrayError(m),
            ) && m@ == BOUNDS_MESSAGE@),
    {
        let n = items.len();
        if n == 0 {
            if lower == i32::MIN {
                Err(ClrError::SafeArrayError(String::from_str(BOUNDS_MESSAGE)))
            } else {
                Ok(SafeArray { lower, items })
            }
        } else if (n - 1) as u64 > (i32::MAX as i64 - lower as i64) as u64 {
            Err(ClrError::SafeArrayError(String::from_str(BOUNDS_MESSAGE)))
        } else {
            Ok(SafeArray { lower, items })
        }
    }

    /// The number of elements.
    pub fn len(&self) -> (r: usize)
        ensures
            r == self.items@.len(),
    {
        self.items.len()
    }

    /// The lower bound.
    pub fn lbound(&self) -> (r: i32)
        ensures
            r == self.lower,
    {
        self.lower
    }

    /// The upper bound: the index of the last element.
    pub fn ubound(&self) -> (r: i32)
        requires
            self.wf(),
        ensures
            r == self.upper(),
    {
        (self.lower as i64 + self.items.len() as i64 - 1) as i32
    }

    /// The element at `index`, or the runtime's bad-index status when `index`
    /// lies outside the bounds.
    pub fn get(&self, index: i32) -> (r: Result<&Variant, ClrError>)
        requires
            self.wf(),
        ensures
            self.lower <= index <= self.upper() ==> (r matches Ok(v)
                && *v == self.items@[index - self.lower]),
            !(self.lower <= index <= self.upper()) ==> r == Err::<&Variant, ClrError>(
                ClrError::ApiError("SafeArrayGetElement", DISP_E_BADINDEX),
            ),
    {
        if index < self.lower || index as i64 > self.lower as i64 + self.items.len() as i64 - 1 {
            Err(ClrError::ApiError("SafeArrayGetElement", DISP_E_BADINDEX))
        } else {
            Ok(&self.items[(index as i64 - self.lower as i64) as usize])
        }
    }
}

/// What each of a list of wide texts holds.
pub open spec fn texts_of(t: Seq<Vec<u16>>) -> Seq<Seq<u16>> {
    t.map_values(|x: Vec<u16>| x@)
}

/// The wide texts of a list of arguments.
pub open spec fn wide_args(args: Seq<String>) -> Seq<Seq<u16>> {
    args.map_values(|a: String| utf16_encode(a@))
}

/// The argument list of a program's entry point: absent arguments give no
/// array; otherwise one array whose single element is the array of the
/// arguments' texts, as the entry point takes one parameter of text array type.
pub fn entry_arguments(args: &Option<Vec<String>>) -> (r: Option<SafeArray>)
    ensures
        args is None ==> r is None,
        args matches Some(a) ==> (r matches Some(arr) && arr.wf() && arr.lower == 0
            && values_of(arr.items@) == seq![DynValue::TextArray(wide_args(a@))]),
{
    match args {
        None => None,
        Some(a) => {
            let mut texts: Vec<Vec<u16>> = Vec::new();
            let mut i: usize = 0;
            while i < a.len()
                invariant
                    i <= a@.len(),
                    texts@.len() == i,
                    texts_of(texts@) =~= wide_args(a@.subrange(0, i as int)),
                decreases a@.len() - i,
            {
                let units = encode_wide(a[i].as_str());
                let ghost prev = texts@;
                texts.push(units);
                assert forall|j: int| 0 <= j < i + 1 implies #[trigger] texts_of(texts@)[j]
                    == wide_args(a@.subrange(0, i + 1))[j] by {
                    if j < i {
                        assert(texts_of(prev)[j] == wide_args(a@.subrange(0, i as int))[j]);
                    }
                }
                assert(texts_of(texts@) =~= wide_args(a@.subrange(0, i + 1)));
                i += 1;
            }
            assert(a@.subrange(0, a@.len() as int) =~= a@);
            let mut items: Vec<Variant> = Vec::new();
            items.push(Variant::TextArray(texts));
            assert(texts_of(texts@) == wide_args(a@));
            assert(values_of(items@) =~= seq![DynValue::TextArray(wide_args(a@))]);
            Some(SafeArray::new(items))
        },
    }
}

} // verus!
