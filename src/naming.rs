//! Where the output goes: the explicit output path, or a name derived from the
//! input's file name, whose stem is converted like the text itself.
use vstd::prelude::*;
use crate::error::{ErrorView, RunError};
use crate::text::{chars_between, ends_with, has_suffix, owned};

verus! {

/// The file stem of the input path (its file name without the final extension).
pub enum StemText {
    /// The path has no file name.
    Absent,
    /// The stem, as text.
    Text(String),
    /// The stem exists but is not valid text.
    NotText,
}

/// The parts of the input's file name that the derived output name is built from.
pub struct InputName {
    pub stem: StemText,
    /// The final extension, without its dot.
    pub extension: Option<String>,
}

/// What to do for the output path.
pub enum OutputPlan {
    /// Use this path as it is.
    Explicit(String),
    /// Convert this stem, then build the file name with [`derived_file_name`]
    /// and place it beside the input.
    Derive(String),
}

/// The mathematical value of an [`OutputPlan`].
pub enum PlanView {
    Explicit(Seq<char>),
    Derive(Seq<char>),
}

impl View for OutputPlan {
    type V = PlanView;

    open spec fn view(&self) -> PlanView {
        match self {
            OutputPlan::Explicit(p) => PlanView::Explicit(p@),
            OutputPlan::Derive(s) => PlanView::Derive(s@),
        }
    }
}

/// The marker that a Traditional Chinese file name may carry before its extension.
pub open spec fn cht_marker() -> Seq<char> {
    seq!['.', 'c', 'h', 't']
}

/// The marker that the derived Simplified Chinese file name carries.
pub open spec fn chs_marker() -> Seq<char> {
    seq!['.', 'c', 'h', 's']
}

/// The stem handed to the converter: `stem` without a trailing `.cht` marker.
pub open spec fn stem_for_conversion(stem: Seq<char>) -> Seq<char> {
    if has_suffix(stem, cht_marker()) {
        stem.subrange(0, stem.len() - cht_marker().len())
    } else {
        stem
    }
}

/// The derived file name: `{converted}.chs.{extension}`, or `{converted}.chs`
/// where the input had no extension.
pub open spec fn derived_name(converted: Seq<char>, extension: Option<Seq<char>>) -> Seq<char> {
    match extension {
        Some(e) => converted + chs_marker() + seq!['.'] + e,
        None => converted + chs_marker(),
    }
}

pub open spec fn opt_text(o: Option<String>) -> Option<Seq<char>> {
    match o {
        Some(s) => Some(s@),
        None => None,
    }
}

/// The plan owed for the input at `input_path` with file name parts `name`.
pub open spec fn output_plan(
    input_path: Seq<char>,
    name: InputName,
    explicit: Option<String>,
) -> Result<PlanView, ErrorView> {
    match explicit {
        Some(q) => Ok(PlanView::Explicit(q@)),
        None => match name.stem {
            StemText::Absent => Ok(PlanView::Derive(Seq::empty())),
            StemText::Text(s) => Ok(PlanView::Derive(stem_for_conversion(s@))),
            StemText::NotText => Err(ErrorView::UnsupportedPath(input_path)),
        },
    }
}

pub open spec fn plan_result_view(r: Result<OutputPlan, RunError>) -> Result<PlanView, ErrorView> {
    match r {
        Ok(p) => Ok(p@),
        Err(e) => Err(e@),
    }
}

/// Without an explicit output path, an input file whose stem is
/// `{base}.cht` has `base` handed to the converter, and with extension `ext`
/// the output is named `{converted}.chs.{ext}`, where `converted` is what the
/// converter returned; a stem without the marker is converted whole.
pub proof fn derived_naming(
    input_path: Seq<char>,
    name: InputName,
    base: Seq<char>,
    ext: Seq<char>,
    converted: Seq<char>,
)
    requires
        name.stem is Text,
        opt_text(name.extension) == Some(ext),
    ensures
        name.stem->Text_0@ == base + cht_marker() ==> output_plan(input_path, name, None) == Ok::<
            PlanView,
            ErrorView,
        >(PlanView::Derive(base)),
        !has_suffix(name.stem->Text_0@, cht_marker()) ==> output_plan(input_path, name, None) == Ok::<
            PlanView,
            ErrorView,
        >(PlanView::Derive(name.stem->Text_0@)),
        derived_name(converted, opt_text(name.extension)) == converted + seq![
            '.',
            'c',
            'h',
            's',
            '.',
        ] + ext,
{
    let stem = name.stem->Text_0@;
    if stem == base + cht_marker() {
        assert(stem.subrange(stem.len() - 4, stem.len() as int) =~= cht_marker());
        assert(stem.subrange(0, stem.len() - 4) =~= base);
    }
    assert(converted + chs_marker() + seq!['.'] + ext =~= converted + seq!['.', 'c', 'h', 's', '.']
        + ext);
}

/// The stem without a trailing `.cht` marker.
pub fn strip_cht_marker(stem: &str) -> (r: String)
    ensures
        r@ == stem_for_conversion(stem@),
{
    let marker = ".cht";
    proof {
        reveal_strlit(".cht");
        assert(marker@ =~= cht_marker());
    }
    let n = stem.unicode_len();
    if ends_with(stem, marker) {
        chars_between(stem, 0, n - 4)
    } else {
        chars_between(stem, 0, n)
    }
}

/// Decides the output path for the input at `input_path`: an explicit output
/// path is used verbatim; otherwise the stem of the input (without a `.cht`
/// marker) is to be converted into a derived name. A stem that is not text
/// makes the path unsupported.
pub fn plan_output(input_path: &str, name: InputName, explicit: Option<String>) -> (r: Result<
    OutputPlan,
    RunError,
>)
    ensures
        plan_result_view(r) == output_plan(input_path@, name, explicit),
{
    match explicit {
        Some(q) => Ok(OutputPlan::Explicit(q)),
        None => match name.stem {
            StemText::Absent => {
                let empty = String::new();
                assert(empty@ =~= Seq::<char>::empty());
                Ok(OutputPlan::Derive(empty))
            },
            StemText::Text(s) => Ok(OutputPlan::Derive(strip_cht_marker(s.as_str()))),
            StemText::NotText => Err(RunError::UnsupportedPath(owned(input_path))),
        },
    }
}

/// The derived output file name, from the converted stem and the input's extension.
pub fn derived_file_name(converted_stem: &str, extension: &Option<String>) -> (r: String)
    ensures
        r@ == derived_name(converted_stem@, opt_text(*extension)),
{
    proof {
        reveal_strlit(".chs");
        reveal_strlit(".");
    }
    let mut name = String::from_str(converted_stem);
    name.append(".chs");
    match extension {
        Some(e) => {
            name.append(".");
            name.append(e.as_str());
            assert(name@ =~= derived_name(converted_stem@, opt_text(*extension)));
        },
        None => {
            assert(name@ =~= derived_name(converted_stem@, opt_text(*extension)));
        },
    }
    name
}

} // verus!
