//! Accessors over the Transvoxel lookup tables.
//!
//! The tables themselves live in the `transvoxel_data` crate and are verbatim
//! copies of the Lengyel tables: they are the algorithm, and are read here
//! through thin trusted accessors.  Each accessor names its table entry with
//! an uninterpreted function, and promises in addition only the small range
//! facts that the table data plainly shows and that the engine needs: how
//! large counts can get, that triangulations reference only listed vertices,
//! and that the empty cases map to the empty class.

use vstd::prelude::*;

verus! {

/// What `transvoxel_data::regular_cell_data::REGULAR_CELL_CLASS` holds at `case`.
pub uninterp spec fn regular_cell_class_entry(case: int) -> u8;

/// What `get_vertex_count` returns on `transvoxel_data::regular_cell_data::REGULAR_CELL_DATA` entry `class`.
pub uninterp spec fn regular_vertex_count(class: int) -> u8;

/// What `get_triangle_count` returns on `transvoxel_data::regular_cell_data::REGULAR_CELL_DATA` entry `class`.
pub uninterp spec fn regular_triangle_count(class: int) -> u8;

/// What `vertex_index[i]` holds in `transvoxel_data::regular_cell_data::REGULAR_CELL_DATA` entry `class`.
pub uninterp spec fn regular_triangulation_entry(class: int, i: int) -> u8;

/// What `transvoxel_data::regular_cell_data::REGULAR_VERTEX_DATA` holds at `[case][i]`.
pub uninterp spec fn regular_vertex_code(case: int, i: int) -> u16;

/// What `transvoxel_data::transition_cell_data::TRANSITION_CELL_CLASS` holds at `case`.
pub uninterp spec fn transition_cell_class_entry(case: int) -> u8;

/// What `get_vertex_count` returns on `transvoxel_data::transition_cell_data::TRANSITION_CELL_DATA` entry `class`.
pub uninterp spec fn transition_vertex_count(class: int) -> u8;

/// What `get_triangle_count` returns on `transvoxel_data::transition_cell_data::TRANSITION_CELL_DATA` entry `class`.
pub uninterp spec fn transition_triangle_count(class: int) -> u8;

/// What `vertex_index[i]` holds in `transvoxel_data::transition_cell_data::TRANSITION_CELL_DATA` entry `class`.
pub uninterp spec fn transition_triangulation_entry(class: int, i: int) -> u8;

/// What `transvoxel_data::transition_cell_data::TRANSITION_VERTEX_DATA` holds at `[case][i]`.
pub uninterp spec fn transition_vertex_code(case: int, i: int) -> u16;

/// Relies on `transvoxel_data::regular_cell_data::REGULAR_CELL_CLASS`: maps
/// an 8-bit case to one of 16 equivalence classes; cases 0 and 255 (no corner
/// inside, all corners inside) map to the empty class 0.
#[verifier::external_body]
pub(crate) fn regular_cell_class(case: usize) -> (r: u8)
    requires
        case < 256,
    ensures
        r == regular_cell_class_entry(case as int),
        r < 16,
        case == 0 ==> r == 0,
        case == 255 ==> r == 0,
{
    transvoxel_data::regular_cell_data::REGULAR_CELL_CLASS[case]
}

/// Relies on `transvoxel_data::regular_cell_data::RegularCellData::get_vertex_count`:
/// at most 12 vertices per class, none for the empty class.
#[verifier::external_body]
pub(crate) fn regular_cell_vertex_count(class: u8) -> (r: u8)
    requires
        class < 16,
    ensures
        r == regular_vertex_count(class as int),
        r <= 12,
        class == 0 ==> r == 0,
{
    transvoxel_data::regular_cell_data::REGULAR_CELL_DATA[class as usize].get_vertex_count()
}

/// Relies on `transvoxel_data::regular_cell_data::RegularCellData::get_triangle_count`:
/// at most 5 triangles per class, none for the empty class.
#[verifier::external_body]
pub(crate) fn regular_cell_triangle_count(class: u8) -> (r: u8)
    requires
        class < 16,
    ensures
        r == regular_triangle_count(class as int),
        r <= 5,
        class == 0 ==> r == 0,
{
    transvoxel_data::regular_cell_data::REGULAR_CELL_DATA[class as usize].get_triangle_count()
}

/// Relies on `transvoxel_data::regular_cell_data::REGULAR_CELL_DATA`'s
/// `vertex_index` arrays: within the 3·triangle-count used prefix, every
/// entry references one of the class's vertices.
#[verifier::external_body]
pub(crate) fn regular_cell_triangulation_entry(class: u8, i: usize) -> (r: u8)
    requires
        class < 16,
        i < 15,
    ensures
        r == regular_triangulation_entry(class as int, i as int),
        i < 3 * regular_triangle_count(class as int) ==> r < regular_vertex_count(class as int),
{
    transvoxel_data::regular_cell_data::REGULAR_CELL_DATA[class as usize].vertex_index[i]
}

/// Relies on `transvoxel_data::regular_cell_data::REGULAR_VERTEX_DATA`: each
/// entry's low byte holds two corner indices below 8, and its reuse slot
/// (bits 8 to 11) is below 4, matching the four reuse slots of a regular
/// cell.
#[verifier::external_body]
pub(crate) fn regular_vertex_data(case: usize, i: usize) -> (r: u16)
    requires
        case < 256,
        i < 12,
    ensures
        r == regular_vertex_code(case as int, i as int),
        (r & 0xF) < 8,
        ((r >> 4) & 0xF) < 8,
        ((r >> 8) & 0xF) < 4,
{
    transvoxel_data::regular_cell_data::REGULAR_VERTEX_DATA[case][i]
}

/// Relies on `transvoxel_data::transition_cell_data::TRANSITION_CELL_CLASS`:
/// the low 7 bits are one of 56 classes (bit 7 is an orientation flag);
/// cases 0 and 511 map to the empty class 0.
#[verifier::external_body]
pub(crate) fn transition_cell_class(case: usize) -> (r: u8)
    requires
        case < 512,
    ensures
        r == transition_cell_class_entry(case as int),
        (r & 0x7F) < 56,
        case == 0 ==> r == 0,
        case == 511 ==> (r & 0x7F) == 0,
{
    transvoxel_data::transition_cell_data::TRANSITION_CELL_CLASS[case]
}

/// Relies on `transvoxel_data::transition_cell_data::TransitionCellData::get_vertex_count`:
/// at most 12 vertices per class, none for the empty class.
#[verifier::external_body]
pub(crate) fn transition_cell_vertex_count(class: u8) -> (r: u8)
    requires
        class < 56,
    ensures
        r == transition_vertex_count(class as int),
        r <= 12,
        class == 0 ==> r == 0,
{
    transvoxel_data::transition_cell_data::TRANSITION_CELL_DATA[class as usize].get_vertex_count()
}

/// Relies on `transvoxel_data::transition_cell_data::TransitionCellData::get_triangle_count`:
/// at most 12 triangles per class, none for the empty class.
#[verifier::external_body]
pub(crate) fn transition_cell_triangle_count(class: u8) -> (r: u8)
    requires
        class < 56,
    ensures
        r == transition_triangle_count(class as int),
        r <= 12,
        class == 0 ==> r == 0,
{
    transvoxel_data::transition_cell_data::TRANSITION_CELL_DATA[class as usize].get_triangle_count()
}

/// Relies on `transvoxel_data::transition_cell_data::TRANSITION_CELL_DATA`'s
/// `vertex_index` arrays: within the 3·triangle-count used prefix, every
/// entry references one of the class's vertices.
#[verifier::external_body]
pub(crate) fn transition_cell_triangulation_entry(class: u8, i: usize) -> (r: u8)
    requires
        class < 56,
        i < 36,
    ensures
        r == transition_triangulation_entry(class as int, i as int),
        i < 3 * transition_triangle_count(class as int) ==> r < transition_vertex_count(
            class as int,
        ),
{
    transvoxel_data::transition_cell_data::TRANSITION_CELL_DATA[class as usize].vertex_index[i]
}

/// Relies on `transvoxel_data::transition_cell_data::TRANSITION_VERTEX_DATA`:
/// each entry's low byte holds two grid point indices below 13, and its
/// reuse slot (bits 8 to 11) is below 10, matching the ten reuse slots of a
/// transition cell.
#[verifier::external_body]
pub(crate) fn transition_vertex_data(case: usize, i: usize) -> (r: u16)
    requires
        case < 512,
        i < 12,
    ensures
        r == transition_vertex_code(case as int, i as int),
        (r & 0xF) < 13,
        ((r >> 4) & 0xF) < 13,
        ((r >> 8) & 0xF) < 10,
{
    transvoxel_data::transition_cell_data::TRANSITION_VERTEX_DATA[case][i]
}

} // verus!
