//! How the bytes of a bitmap are described to a consumer of raw memory: a
//! flat, read-only run of single bytes.

use vstd::prelude::*;

verus! {

/// What a consumer is told of the bytes it asked for.
#[derive(Clone, Copy, Debug, PartialEq, Eq, Hash, Structural)]
pub struct BufferPlan {
    /// The bytes may not be written.
    pub readonly: bool,
    /// Bytes in one item.
    pub itemsize: usize,
    /// Number of dimensions.
    pub ndim: usize,
    /// The consumer is told the format of an item.
    pub with_format: bool,
    /// The consumer is told the length of the one dimension.
    pub with_shape: bool,
    /// The consumer is told the step from one item to the next.
    pub with_strides: bool,
}

/// Whether every bit of `flag` is set in `flags`.
pub open spec fn spec_asks(flags: i32, flag: i32) -> bool {
    flags & flag == flag
}

/// The answer to a request made with `flags`, given the flags that ask for
/// writable memory, for the format, for the shape and for the strides.
/// `None` where the request asks for writable memory: the bytes of a bitmap
/// are never changed. Else one dimension of read-only single bytes, with
/// the parts that the request asks for.
pub fn buffer_plan(flags: i32, writable: i32, format: i32, nd: i32, strides: i32) -> (res: Option<
    BufferPlan,
>)
    ensures
        res is None <==> spec_asks(flags, writable),
        res is Some ==> res->Some_0 == (BufferPlan {
            readonly: true,
            itemsize: 1,
            ndim: 1,
            with_format: spec_asks(flags, format),
            with_shape: spec_asks(flags, nd),
            with_strides: spec_asks(flags, strides),
        }),
{
    if (flags & writable) == writable {
        None
    } else {
        Some(
            BufferPlan {
                readonly: true,
                itemsize: 1,
                ndim: 1,
                with_format: (flags & format) == format,
                with_shape: (flags & nd) == nd,
                with_strides: (flags & strides) == strides,
            },
        )
    }
}

} // verus!
