use vstd::prelude::*;

verus! {

/// Highest sequence number of a plate in either series.
pub const PLATE_COUNT: u32 = 871;

pub const ARCHIVE_BASE: &'static str = "https://irsa.ipac.caltech.edu/data/DSS/images";
pub const STAGING_DIR: &'static str = "/dev/shm";
pub const OUTPUT_BASE: &'static str = "poss_1";
pub const FITS_EXT: &'static str = ".fits";
pub const RED_SUBPATH: &'static str = "dss1red";
pub const BLUE_SUBPATH: &'static str = "dss1blue";
pub const RED_PREFIX: &'static str = "XE";
pub const BLUE_PREFIX: &'static str = "XO";
pub const RED_OUTPUT: &'static str = "red";
pub const BLUE_OUTPUT: &'static str = "blue";

/// The two plate series of the archive.
#[derive(Clone, Copy, Debug, PartialEq, Eq, Structural)]
pub enum Series {
    Red,
    Blue,
}

/// The archive's directory and file-name stem for a series.
pub open spec fn subpath_of(s: Series) -> Seq<char> {
    match s {
        Series::Red => RED_SUBPATH@,
        Series::Blue => BLUE_SUBPATH@,
    }
}

/// The two letters that open a series' catalog codes.
pub open spec fn prefix_of(s: Series) -> Seq<char> {
    match s {
        Series::Red => RED_PREFIX@,
        Series::Blue => BLUE_PREFIX@,
    }
}

/// The name of a series' output directory.
pub open spec fn output_name_of(s: Series) -> Seq<char> {
    match s {
        Series::Red => RED_OUTPUT@,
        Series::Blue => BLUE_OUTPUT@,
    }
}

/// The character of a decimal digit `d < 10`.
pub open spec fn digit_char(d: int) -> char {
    seq!['0', '1', '2', '3', '4', '5', '6', '7', '8', '9'][d]
}

/// The catalog code: the series prefix and the sequence number on three digits.
pub open spec fn code_of(s: Series, n: int) -> Seq<char> {
    prefix_of(s) + seq![digit_char(n / 100), digit_char((n / 10) % 10), digit_char(n % 10)]
}

/// `{subpath}_{code}.fits`, the file name of a plate, remote and staged.
pub open spec fn file_name_of(s: Series, n: int) -> Seq<char> {
    subpath_of(s) + seq!['_'] + code_of(s, n) + FITS_EXT@
}

/// One plate of the catalog.
#[derive(Clone, Copy, Debug, PartialEq, Eq, Structural)]
pub struct PlateIdentifier {
    pub series: Series,
    pub sequence: u32,
}

fn series_subpath(s: Series) -> (r: &'static str)
    ensures
        r@ == subpath_of(s),
{
    match s {
        Series::Red => RED_SUBPATH,
        Series::Blue => BLUE_SUBPATH,
    }
}

fn digit_str(d: u32) -> (r: &'static str)
    requires
        d < 10,
    ensures
        r@ == seq![digit_char(d as int)],
{
    proof {
        reveal_strlit("0");
        reveal_strlit("1");
        reveal_strlit("2");
        reveal_strlit("3");
        reveal_strlit("4");
        reveal_strlit("5");
        reveal_strlit("6");
        reveal_strlit("7");
        reveal_strlit("8");
        reveal_strlit("9");
    }
    let r = match d {
        0 => "0",
        1 => "1",
        2 => "2",
        3 => "3",
        4 => "4",
        5 => "5",
        6 => "6",
        7 => "7",
        8 => "8",
        _ => "9",
    };
    assert(r@ =~= seq![digit_char(d as int)]);
    r
}

impl PlateIdentifier {
    /// The sequence number lies in the catalog's range.
    pub open spec fn wf(&self) -> bool {
        1 <= self.sequence <= PLATE_COUNT
    }

    /// The plate `sequence` of `series`, if the number lies in `1..=871`.
    pub fn new(series: Series, sequence: u32) -> (r: Option<PlateIdentifier>)
        ensures
            r is Some <==> 1 <= sequence <= PLATE_COUNT,
            r matches Some(p) ==> p.series == series && p.sequence == sequence && p.wf(),
    {
        if 1 <= sequence && sequence <= PLATE_COUNT {
            Some(PlateIdentifier { series, sequence })
        } else {
            None
        }
    }

    /// The catalog code, such as `XE001` or `XO871`.
    pub fn code(&self) -> (r: String)
        requires
            self.wf(),
        ensures
            r@ == code_of(self.series, self.sequence as int),
    {
        let n = self.sequence;
        let mut s = match self.series {
            Series::Red => String::from_str(RED_PREFIX),
            Series::Blue => String::from_str(BLUE_PREFIX),
        };
        s.append(digit_str(n / 100));
        s.append(digit_str((n / 10) % 10));
        s.append(digit_str(n % 10));
        assert(s@ =~= code_of(self.series, n as int));
        s
    }

    fn file_name(&self) -> (r: String)
        requires
            self.wf(),
        ensures
            r@ == file_name_of(self.series, self.sequence as int),
    {
        proof {
            reveal_strlit("_");
        }
        let mut s = String::from_str(series_subpath(self.series));
        s.append("_");
        let code = self.code();
        s.append(code.as_str());
        s.append(FITS_EXT);
        s
    }

    /// `{archive}/{subpath}/{subpath}_{code}.fits`, where the archive holds the plate.
    pub fn remote_url(&self) -> (r: String)
        requires
            self.wf(),
        ensures
            r@ == ARCHIVE_BASE@ + seq!['/'] + subpath_of(self.series) + seq!['/'] + file_name_of(
                self.series,
                self.sequence as int,
            ),
    {
        proof {
            reveal_strlit("/");
        }
        let mut s = String::from_str(ARCHIVE_BASE);
        s.append("/");
        s.append(series_subpath(self.series));
        s.append("/");
        let f = self.file_name();
        s.append(f.as_str());
        s
    }

    /// `{staging_dir}/{subpath}_{code}.fits`, where the plate is staged while it
    /// is processed.
    pub fn staging_path(&self, staging_dir: &str) -> (r: String)
        requires
            self.wf(),
        ensures
            r@ == staging_dir@ + seq!['/'] + file_name_of(self.series, self.sequence as int),
    {
        proof {
            reveal_strlit("/");
        }
        let mut s = String::from_str(staging_dir);
        s.append("/");
        let f = self.file_name();
        s.append(f.as_str());
        s
    }
}

/// Every plate of a series, by ascending sequence number `1..=871`.
pub fn plate_identifiers(series: Series) -> (r: Vec<PlateIdentifier>)
    ensures
        r@.len() == PLATE_COUNT,
        forall|i: int|
            0 <= i < r@.len() ==> (#[trigger] r@[i]).series == series && r@[i].sequence == i + 1
                && r@[i].wf(),
{
    let mut r: Vec<PlateIdentifier> = Vec::new();
    let mut n: u32 = 1;
    while n <= PLATE_COUNT
        invariant
            1 <= n <= PLATE_COUNT + 1,
            r@.len() == n - 1,
            forall|i: int|
                0 <= i < r@.len() ==> (#[trigger] r@[i]).series == series && r@[i].sequence == i
                    + 1 && r@[i].wf(),
        decreases PLATE_COUNT + 1 - n,
    {
        r.push(PlateIdentifier { series, sequence: n });
        n = n + 1;
    }
    r
}

/// `{base}/{red|blue}`, the directory that receives a series' outputs.
pub fn series_output_dir(base: &str, series: Series) -> (r: String)
    ensures
        r@ == base@ + seq!['/'] + output_name_of(series),
{
    proof {
        reveal_strlit("/");
    }
    let mut s = String::from_str(base);
    s.append("/");
    match series {
        Series::Red => s.append(RED_OUTPUT),
        Series::Blue => s.append(BLUE_OUTPUT),
    }
    s
}

} // verus!
