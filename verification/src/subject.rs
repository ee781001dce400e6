//! The closed vocabulary of row labels the template recognizes.
//!
//! Column 0 of every row names which field attribute the row supplies.
//! Matching is exact, except for the options label, which spreadsheet authors
//! may extend with free text and which therefore matches by prefix.

use vstd::prelude::*;

use crate::error::ConvertError;
use crate::error::ErrorV;
use crate::text;

verus! {

/// Which field attribute a row supplies.
#[derive(Clone, Copy, Debug, PartialEq, Eq, Structural)]
pub enum Subject {
    Paging,
    Required,
    DisplayConditionFirst,
    DisplayConditionSecond,
    DisplayConditionThird,
    Type,
    Max,
    Min,
    Label,
    Placeholder,
    InputSpec,
    NumInputSpec,
    NumInputSpecError,
    Options,
}

/// Which subject a row label names, or the offending label.
pub open spec fn subject_of_label(l: Seq<char>) -> Result<Subject, ErrorV> {
    if l == "ページング"@ {
        Ok(Subject::Paging)
    } else if l == "表示"@ {
        Ok(Subject::Required)
    } else if l == "表示条件1"@ {
        Ok(Subject::DisplayConditionFirst)
    } else if l == "表示条件2"@ {
        Ok(Subject::DisplayConditionSecond)
    } else if l == "表示条件3"@ {
        Ok(Subject::DisplayConditionThird)
    } else if l == "タイプ"@ {
        Ok(Subject::Type)
    } else if l == "最大"@ {
        Ok(Subject::Max)
    } else if l == "最小"@ {
        Ok(Subject::Min)
    } else if l == "ラベル"@ {
        Ok(Subject::Label)
    } else if l == "プレースホルダ"@ {
        Ok(Subject::Placeholder)
    } else if l == "入力指定"@ {
        Ok(Subject::InputSpec)
    } else if l == "数字入力指定範囲(例：10~90)"@ {
        Ok(Subject::NumInputSpec)
    } else if l == "入力指定エラー文言"@ {
        Ok(Subject::NumInputSpecError)
    } else if text::is_prefix_of("プルダウン"@, l) {
        Ok(Subject::Options)
    } else {
        Err(ErrorV::IncorrectSubject(l))
    }
}

impl Subject {
    /// Classifies a row label; unrecognized labels are fatal.
    pub fn from_label(s: &str) -> (r: Result<Subject, ConvertError>)
        ensures
            match r {
                Ok(v) => subject_of_label(s@) == Ok::<Subject, ErrorV>(v),
                Err(e) => subject_of_label(s@) == Err::<Subject, ErrorV>(e@),
            },
    {
        if text::str_eq(s, "ページング") {
            Ok(Subject::Paging)
        } else if text::str_eq(s, "表示") {
            Ok(Subject::Required)
        } else if text::str_eq(s, "表示条件1") {
            Ok(Subject::DisplayConditionFirst)
        } else if text::str_eq(s, "表示条件2") {
            Ok(Subject::DisplayConditionSecond)
        } else if text::str_eq(s, "表示条件3") {
            Ok(Subject::DisplayConditionThird)
        } else if text::str_eq(s, "タイプ") {
            Ok(Subject::Type)
        } else if text::str_eq(s, "最大") {
            Ok(Subject::Max)
        } else if text::str_eq(s, "最小") {
            Ok(Subject::Min)
        } else if text::str_eq(s, "ラベル") {
            Ok(Subject::Label)
        } else if text::str_eq(s, "プレースホルダ") {
            Ok(Subject::Placeholder)
        } else if text::str_eq(s, "入力指定") {
            Ok(Subject::InputSpec)
        } else if text::str_eq(s, "数字入力指定範囲(例：10~90)") {
            Ok(Subject::NumInputSpec)
        } else if text::str_eq(s, "入力指定エラー文言") {
            Ok(Subject::NumInputSpecError)
        } else if text::has_prefix(s, "プルダウン") {
            Ok(Subject::Options)
        } else {
            Err(ConvertError::IncorrectSubject(s.to_owned()))
        }
    }
}

} // verus!
