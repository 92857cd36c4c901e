//! The fixed catalog of scales and the image paths that belong to each.

use vstd::prelude::*;
use vstd::string::*;

verus! {

/// The number of scales in the catalog.
pub const CATALOG_SIZE: usize = 15;

/// The name of the scale at position `index` of the catalog.
pub open spec fn name_at(index: int) -> Seq<char> {
    if index == 0 {
        "E0"@
    } else if index == 1 {
        "F0"@
    } else if index == 2 {
        "G0"@
    } else if index == 3 {
        "A1"@
    } else if index == 4 {
        "B1"@
    } else if index == 5 {
        "C1"@
    } else if index == 6 {
        "D1"@
    } else if index == 7 {
        "F1"@
    } else if index == 8 {
        "G1"@
    } else if index == 9 {
        "A2"@
    } else if index == 10 {
        "B2"@
    } else if index == 11 {
        "C2"@
    } else if index == 12 {
        "D2"@
    } else if index == 13 {
        "F2"@
    } else {
        "G2"@
    }
}

/// The path of the image that shows the scale called `name`.
pub open spec fn image_path_of(name: Seq<char>) -> Seq<char> {
    "./assets/images/"@ + name + ".png"@
}

/// The path of the image that shows the tablature of the scale called `name`.
pub open spec fn tab_image_path_of(name: Seq<char>) -> Seq<char> {
    "./assets/images/"@ + name + "_tab.png"@
}

/// A request for a position that the catalog does not have.
#[derive(Clone, Copy, Debug, PartialEq, Eq)]
pub struct IndexOutOfRange {
    /// The position that was asked for.
    pub index: usize,
    /// The number of scales in the catalog.
    pub size: usize,
}

/// A named scale. Its view is its name.
#[derive(Clone, Copy, Debug, PartialEq, Eq)]
pub struct Scale {
    name: &'static str,
}

impl View for Scale {
    type V = Seq<char>;

    closed spec fn view(&self) -> Seq<char> {
        self.name@
    }
}

impl Scale {
    /// The scale called `name`.
    pub fn new(name: &'static str) -> (scale: Scale)
        ensures
            scale@ == name@,
    {
        Scale { name }
    }

    /// The name of the scale.
    pub fn name(&self) -> (name: &'static str)
        ensures
            name@ == self@,
    {
        self.name
    }

    /// The path of the image that shows the scale.
    pub fn image_path(&self) -> (path: String)
        ensures
            path@ == image_path_of(self@),
    {
        let mut path = String::from_str("./assets/images/");
        path.append(self.name);
        path.append(".png");
        path
    }

    /// The path of the image that shows the tablature of the scale.
    pub fn tab_image_path(&self) -> (path: String)
        ensures
            path@ == tab_image_path_of(self@),
    {
        let mut path = String::from_str("./assets/images/");
        path.append(self.name);
        path.append("_tab.png");
        path
    }
}

/// The number of scales in the catalog.
pub fn size() -> (n: usize)
    ensures
        n == CATALOG_SIZE,
{
    CATALOG_SIZE
}

/// The scale at position `index`, for every position below [`CATALOG_SIZE`].
pub fn get(index: usize) -> (entry: Result<Scale, IndexOutOfRange>)
    ensures
        index < CATALOG_SIZE ==> entry is Ok && entry->Ok_0@ == name_at(index as int),
        index >= CATALOG_SIZE ==> entry == Err::<Scale, IndexOutOfRange>(
            IndexOutOfRange { index, size: CATALOG_SIZE },
        ),
{
    match index {
        0 => Ok(Scale::new("E0")),
        1 => Ok(Scale::new("F0")),
        2 => Ok(Scale::new("G0")),
        3 => Ok(Scale::new("A1")),
        4 => Ok(Scale::new("B1")),
        5 => Ok(Scale::new("C1")),
        6 => Ok(Scale::new("D1")),
        7 => Ok(Scale::new("F1")),
        8 => Ok(Scale::new("G1")),
        9 => Ok(Scale::new("A2")),
        10 => Ok(Scale::new("B2")),
        11 => Ok(Scale::new("C2")),
        12 => Ok(Scale::new("D2")),
        13 => Ok(Scale::new("F2")),
        14 => Ok(Scale::new("G2")),
        _ => Err(IndexOutOfRange { index, size: CATALOG_SIZE }),
    }
}

} // verus!
