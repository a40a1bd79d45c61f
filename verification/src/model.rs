//! From the vendor's model code to the model of a printer.

use vstd::prelude::*;
use crate::text::{chars_of, same_text};

verus! {

/// A printer model.
#[derive(Debug, PartialEq, Eq)]
pub enum BambuModel {
    A1Mini,
    A1,
    P1P,
    P1S,
    X1Carbon,
    /// A model this library has no name for, with the code it announced.
    Unknown(String),
}

/// A printer model, as a mathematical value.
pub enum ModelView {
    A1Mini,
    A1,
    P1P,
    P1S,
    X1Carbon,
    Unknown(Seq<char>),
}

impl View for BambuModel {
    type V = ModelView;

    open spec fn view(&self) -> ModelView {
        match self {
            BambuModel::A1Mini => ModelView::A1Mini,
            BambuModel::A1 => ModelView::A1,
            BambuModel::P1P => ModelView::P1P,
            BambuModel::P1S => ModelView::P1S,
            BambuModel::X1Carbon => ModelView::X1Carbon,
            BambuModel::Unknown(code) => ModelView::Unknown(code@),
        }
    }
}

/// The model that a vendor code stands for.
pub open spec fn model_of(code: Seq<char>) -> ModelView {
    if code == "N1"@ {
        ModelView::A1Mini
    } else if code == "N2S"@ {
        ModelView::A1
    } else if code == "C11"@ {
        ModelView::P1P
    } else if code == "C12"@ {
        ModelView::P1S
    } else if code == "BL-P001"@ {
        ModelView::X1Carbon
    } else {
        ModelView::Unknown(code)
    }
}

/// Whether the vendor code is one of those in the table.
pub open spec fn is_known_code(code: Seq<char>) -> bool {
    code == "N1"@ || code == "N2S"@ || code == "C11"@ || code == "C12"@ || code == "BL-P001"@
}

/// The name under which a model is shown.
pub open spec fn model_name(model: ModelView) -> Seq<char> {
    match model {
        ModelView::A1Mini => "Bambu Lab A1 mini"@,
        ModelView::A1 => "Bambu Lab A1"@,
        ModelView::P1P => "Bambu Lab P1P"@,
        ModelView::P1S => "Bambu Lab P1S"@,
        ModelView::X1Carbon => "Bambu Lab X1 Carbon"@,
        ModelView::Unknown(code) => code,
    }
}

/// Every code resolves to a model. A code outside the table resolves to
/// `Unknown` with the code itself, which is then also the name shown; a code
/// in the table never resolves to `Unknown`.
pub proof fn lemma_model_resolution_total(code: Seq<char>)
    ensures
        !is_known_code(code) ==> model_of(code) == ModelView::Unknown(code),
        is_known_code(code) ==> !(model_of(code) is Unknown),
        model_of(code) is Unknown ==> model_name(model_of(code)) == code,
{
}

/// The table of known codes, entry by entry.
pub proof fn lemma_model_table()
    ensures
        model_of("N1"@) == ModelView::A1Mini,
        model_of("N2S"@) == ModelView::A1,
        model_of("C11"@) == ModelView::P1P,
        model_of("C12"@) == ModelView::P1S,
        model_of("BL-P001"@) == ModelView::X1Carbon,
{
    reveal_strlit("N1");
    reveal_strlit("N2S");
    reveal_strlit("C11");
    reveal_strlit("C12");
    reveal_strlit("BL-P001");
    assert("N1"@.len() == 2);
    assert("N2S"@.len() == 3);
    assert("C11"@[2] == '1' && "C12"@[2] == '2');
}

impl BambuModel {
    /// Resolves a vendor model code.
    pub fn from_code(code: &str) -> (model: BambuModel)
        ensures
            model@ == model_of(code@),
    {
        let chars = chars_of(code);
        if same_text(chars.as_slice(), chars_of("N1").as_slice()) {
            BambuModel::A1Mini
        } else if same_text(chars.as_slice(), chars_of("N2S").as_slice()) {
            BambuModel::A1
        } else if same_text(chars.as_slice(), chars_of("C11").as_slice()) {
            BambuModel::P1P
        } else if same_text(chars.as_slice(), chars_of("C12").as_slice()) {
            BambuModel::P1S
        } else if same_text(chars.as_slice(), chars_of("BL-P001").as_slice()) {
            BambuModel::X1Carbon
        } else {
            BambuModel::Unknown(code.to_owned())
        }
    }

    /// The name under which the model is shown.
    pub fn to_string(&self) -> (name: String)
        ensures
            name@ == model_name(self@),
    {
        match self {
            BambuModel::A1Mini => "Bambu Lab A1 mini".to_owned(),
            BambuModel::A1 => "Bambu Lab A1".to_owned(),
            BambuModel::P1P => "Bambu Lab P1P".to_owned(),
            BambuModel::P1S => "Bambu Lab P1S".to_owned(),
            BambuModel::X1Carbon => "Bambu Lab X1 Carbon".to_owned(),
            BambuModel::Unknown(code) => code.clone(),
        }
    }
}

} // verus!
