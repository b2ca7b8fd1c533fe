//! The title bar: the name of the file on the left, the modes on the right.

use vstd::prelude::*;

verus! {

/// The bar at the top of the screen.
pub struct TitleBarWidget<'a> {
    pub filename: &'a str,
    pub modes: &'a [&'a str],
    pub mode_index: usize,
}

impl<'a> TitleBarWidget<'a> {
    pub fn new(title: &'a str, modes: &'a [&'a str], mode_index: usize) -> (widget: TitleBarWidget<
        'a,
    >)
        ensures
            widget.filename == title,
            widget.modes == modes,
            widget.mode_index == mode_index,
    {
        Self { filename: title, modes: modes, mode_index: mode_index }
    }
}

/// Whether byte `at` of a file name is the dot after which its extensions
/// start: the first dot that is not the name's first byte.
pub open spec fn spec_is_extension_dot(name: Seq<u8>, at: int) -> bool {
    &&& 1 <= at < name.len()
    &&& name[at] == 0x2e
    &&& forall|i: int| 1 <= i < at ==> name[i] != 0x2e
}

/// Where the extensions of a file name start: all of them together, as in
/// `nii.gz`. The result is the place of the dot before them, or `None` for a
/// name without extension. A dot at the very start belongs to the name.
pub fn path_extension_all(name: &[u8]) -> (dot: Option<usize>)
    ensures
        dot matches Some(at) ==> spec_is_extension_dot(name@, at as int),
        dot is None ==> forall|i: int| 1 <= i < name@.len() ==> name@[i] != 0x2e,
{
    let mut i: usize = 1;
    while i < name.len()
        invariant
            1 <= i,
            forall|j: int| 1 <= j < i && j < name@.len() ==> name@[j] != 0x2e,
        decreases name@.len() - i,
    {
        if name[i] == 0x2e {
            return Some(i);
        }
        i = i + 1;
    }
    None
}

/// Which parts of a file's name the title bar shows, and where.
#[derive(Debug, Clone, Copy, PartialEq, Eq, Structural)]
pub struct TitleLayout {
    /// The column of the directory, where it is shown.
    pub dir: Option<u16>,
    /// The column of the name without its extensions, where it is shown.
    pub stem: Option<u16>,
    /// The column of the extensions, where they are shown.
    pub ext: Option<u16>,
}

/// Which parts of a file's name fit into `room` columns from column `x` on:
/// all three if they fit with a column to spare, else the name with its
/// extensions, else the name alone, else nothing.
pub open spec fn spec_title_layout(x: int, room: int, dir_len: int, stem_len: int, ext_len: int) -> TitleLayout {
    if dir_len + stem_len + ext_len < room {
        TitleLayout {
            dir: Some(x as u16),
            stem: Some((x + dir_len) as u16),
            ext: Some((x + dir_len + stem_len) as u16),
        }
    } else if stem_len + ext_len < room {
        TitleLayout { dir: None, stem: Some(x as u16), ext: Some((x + stem_len) as u16) }
    } else if stem_len < room {
        TitleLayout { dir: None, stem: Some(x as u16), ext: None }
    } else {
        TitleLayout { dir: None, stem: None, ext: None }
    }
}

/// Which parts of a file's name the title bar shows in a row that starts at
/// column `x`, is `width` columns wide and gives up `modes_width` columns on
/// the right to the modes. A row that the modes fill shows no name.
pub fn title_layout(
    x: u16,
    width: u16,
    modes_width: usize,
    dir_len: usize,
    stem_len: usize,
    ext_len: usize,
) -> (layout: TitleLayout)
    requires
        x + width <= u16::MAX,
    ensures
        layout == spec_title_layout(
            x as int,
            if modes_width <= width {
                width - modes_width
            } else {
                0
            },
            dir_len as int,
            stem_len as int,
            ext_len as int,
        ),
{
    if modes_width > width as usize {
        return TitleLayout { dir: None, stem: None, ext: None };
    }
    let room: usize = width as usize - modes_width;
    if dir_len < room && stem_len < room - dir_len && ext_len < room - dir_len - stem_len {
        TitleLayout {
            dir: Some(x),
            stem: Some(x + dir_len as u16),
            ext: Some(x + dir_len as u16 + stem_len as u16),
        }
    } else if stem_len < room && ext_len < room - stem_len {
        TitleLayout { dir: None, stem: Some(x), ext: Some(x + stem_len as u16) }
    } else if stem_len < room {
        TitleLayout { dir: None, stem: Some(x), ext: None }
    } else {
        TitleLayout { dir: None, stem: None, ext: None }
    }
}

/// Where the titles of the modes stand: they end at the right edge of the
/// row, the last one rightmost, each followed by one free column. The
/// result holds the column of each title, and the number of columns that
/// the titles take with their free columns.
pub open spec fn spec_mode_column(right: int, lens: Seq<usize>, i: int) -> int
    decreases lens.len() - i,
{
    if i < 0 || i >= lens.len() {
        right
    } else if i == lens.len() - 1 {
        right - lens[i]
    } else {
        spec_mode_column(right, lens, i + 1) - 1 - lens[i]
    }
}

/// The columns that the titles of the modes take, each with the free column
/// behind it.
pub open spec fn spec_modes_width(lens: Seq<usize>) -> int
    decreases lens.len(),
{
    if lens.len() == 0 {
        0
    } else {
        spec_modes_width(lens.drop_last()) + lens.last() + 1
    }
}

/// The columns that the titles of the first `upto` modes take do not exceed
/// those that all of them take.
proof fn lemma_modes_width_grows(lens: Seq<usize>, upto: int)
    requires
        0 <= upto <= lens.len(),
    ensures
        0 <= spec_modes_width(lens.take(upto)) <= spec_modes_width(lens),
    decreases lens.len() - upto,
{
    lemma_modes_width_is_natural(lens.take(upto));
    if upto == lens.len() {
        assert(lens.take(upto) == lens);
    } else {
        lemma_modes_width_grows(lens, upto + 1);
        assert(lens.take(upto + 1).drop_last() == lens.take(upto));
    }
}

/// The titles take no negative number of columns.
proof fn lemma_modes_width_is_natural(lens: Seq<usize>)
    ensures
        0 <= spec_modes_width(lens),
    decreases lens.len(),
{
    if lens.len() > 0 {
        lemma_modes_width_is_natural(lens.drop_last());
    }
}

/// The columns that the titles of the modes take, each with the free column
/// behind it; the largest number there is, where they take more than that.
pub fn modes_width(lens: &[usize]) -> (total: usize)
    ensures
        total == if spec_modes_width(lens@) <= usize::MAX {
            spec_modes_width(lens@)
        } else {
            usize::MAX as int
        },
{
    let mut total: usize = 0;
    let mut i: usize = 0;
    while i < lens.len()
        invariant
            i <= lens@.len(),
            total == spec_modes_width(lens@.take(i as int)),
        decreases lens@.len() - i,
    {
        let len = lens[i];
        proof {
            assert(lens@.take(i + 1).drop_last() == lens@.take(i as int));
            lemma_modes_width_grows(lens@, i + 1);
        }
        if len == usize::MAX || total > usize::MAX - len - 1 {
            return usize::MAX;
        }
        total = total + len + 1;
        i = i + 1;
    }
    assert(lens@.take(lens@.len() as int) == lens@);
    total
}

/// The column of each mode's title in a row that starts at column `x` and
/// is `width` columns wide, or `None` where the titles do not fit into the
/// row.
pub fn mode_columns(x: u16, width: u16, lens: &[usize]) -> (columns: Option<Vec<u16>>)
    requires
        x + width <= u16::MAX,
    ensures
        columns matches Some(cols) ==> {
            &&& cols@.len() == lens@.len()
            &&& forall|i: int|
                0 <= i < cols@.len() ==> #[trigger] cols@[i] == spec_mode_column(
                    x + width,
                    lens@,
                    i,
                ) && cols@[i] >= x
        },
        columns is None <==> exists|i: int|
            0 <= i < lens@.len() && #[trigger] spec_mode_column(x + width, lens@, i) < x,
{
    let n = lens.len();
    let mut reversed: Vec<u16> = Vec::new();
    let mut column: u16 = x + width;
    let mut k: usize = 0;
    while k < n
        invariant
            n == lens@.len(),
            k <= n,
            x + width <= u16::MAX,
            reversed@.len() == k,
            x <= column <= x + width,
            k == 0 ==> column == x + width,
            k > 0 ==> column == spec_mode_column(x + width, lens@, n - k),
            forall|j: int|
                0 <= j < k ==> #[trigger] reversed@[j] == spec_mode_column(
                    x + width,
                    lens@,
                    n - 1 - j,
                ) && reversed@[j] >= x,
        decreases n - k,
    {
        let i = n - 1 - k;
        let gap: usize = if k == 0 {
            0
        } else {
            1
        };
        let len = lens[i];
        let room: usize = (column - x) as usize;
        if len > room || gap > room - len {
            assert(spec_mode_column(x + width, lens@, i as int) < x);
            return None;
        }
        column = column - (len as u16) - (gap as u16);
        reversed.push(column);
        k = k + 1;
    }
    let mut columns: Vec<u16> = Vec::new();
    let mut i: usize = 0;
    while i < n
        invariant
            n == lens@.len(),
            reversed@.len() == n,
            i <= n,
            columns@.len() == i,
            forall|j: int|
                0 <= j < n ==> #[trigger] reversed@[j] == spec_mode_column(
                    x + width,
                    lens@,
                    n - 1 - j,
                ) && reversed@[j] >= x,
            forall|j: int|
                0 <= j < i ==> #[trigger] columns@[j] == spec_mode_column(x + width, lens@, j)
                    && columns@[j] >= x,
        decreases n - i,
    {
        let c = reversed[n - 1 - i];
        columns.push(c);
        i = i + 1;
    }
    assert forall|i: int| 0 <= i < lens@.len() implies !(#[trigger] spec_mode_column(
        x + width,
        lens@,
        i,
    ) < x) by {
        assert(columns@[i] == spec_mode_column(x + width, lens@, i));
    }
    Some(columns)
}

} // verus!
