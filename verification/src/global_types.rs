//! The data model shared by every component: material, status and quality
//! enumerations, the client-supplied order submission, the printing
//! parameters derived from slicing, the persisted order record and the rate
//! table that prices are computed from.
//!
//! Monetary amounts are carried in minor currency units (one hundredth of the
//! major unit) so that pricing stays in exact integer arithmetic.

use vstd::prelude::*;

verus! {

/// The closed set of printable materials.
#[derive(Clone, Copy, PartialEq, Eq, Structural, Debug)]
pub enum PrintMaterialType {
    PLA,
    PET,
    ASA,
}

/// The order-status lifecycle.  `Completed` and `Canceled` are terminal:
/// a record that reaches one of them is swept into the archive store.
#[derive(Clone, Copy, PartialEq, Eq, Structural, Debug)]
pub enum StatusType {
    New,
    InProgress,
    Completed,
    Canceled,
}

/// The print-quality mode requested by the client.
#[derive(Clone, Copy, PartialEq, Eq, Structural, Debug)]
pub enum PrintType {
    Standard,
    Precise,
    ThickLayer,
    FullFill,
}

/// A status is terminal exactly when no further transition is expected of it.
pub open spec fn is_terminal_status(s: StatusType) -> bool {
    s == StatusType::Completed || s == StatusType::Canceled
}

impl PrintMaterialType {
    /// The textual name of the material, as persisted and serialized.
    pub fn as_str(&self) -> (r: &'static str)
        ensures
            r@ == self.name(),
    {
        match self {
            PrintMaterialType::PLA => "PLA",
            PrintMaterialType::PET => "PET",
            PrintMaterialType::ASA => "ASA",
        }
    }

    /// The textual name of the material.
    pub open spec fn name(self) -> Seq<char> {
        match self {
            PrintMaterialType::PLA => "PLA"@,
            PrintMaterialType::PET => "PET"@,
            PrintMaterialType::ASA => "ASA"@,
        }
    }
}

impl StatusType {
    /// The textual name of the status, as persisted and serialized.
    pub fn as_str(&self) -> (r: &'static str)
        ensures
            r@ == self.name(),
    {
        match self {
            StatusType::New => "New",
            StatusType::InProgress => "InProgress",
            StatusType::Completed => "Completed",
            StatusType::Canceled => "Canceled",
        }
    }

    /// The textual name of the status.
    pub open spec fn name(self) -> Seq<char> {
        match self {
            StatusType::New => "New"@,
            StatusType::InProgress => "InProgress"@,
            StatusType::Completed => "Completed"@,
            StatusType::Canceled => "Canceled"@,
        }
    }

    /// Whether this status is terminal.
    pub fn is_terminal(&self) -> (r: bool)
        ensures
            r == is_terminal_status(*self),
    {
        match self {
            StatusType::Completed => true,
            StatusType::Canceled => true,
            _ => false,
        }
    }
}

impl PrintType {
    /// The textual name of the quality mode, as persisted and serialized.
    pub fn as_str(&self) -> (r: &'static str)
        ensures
            r@ == self.name(),
    {
        match self {
            PrintType::Standard => "Standard",
            PrintType::Precise => "Precise",
            PrintType::ThickLayer => "ThickLayer",
            PrintType::FullFill => "FullFill",
        }
    }

    /// The textual name of the quality mode.
    pub open spec fn name(self) -> Seq<char> {
        match self {
            PrintType::Standard => "Standard"@,
            PrintType::Precise => "Precise"@,
            PrintType::ThickLayer => "ThickLayer"@,
            PrintType::FullFill => "FullFill"@,
        }
    }
}

/// The metadata a client sends ahead of the binary chunks of one upload.
pub struct SubmittedOrderData {
    pub name: String,
    pub email: String,
    pub copies_nbr: u32,
    pub file_name: String,
    pub nbr_of_chunks: u32,
    pub print_type: PrintType,
    pub material_type: PrintMaterialType,
}

/// The mathematical image of a submission: its strings as character
/// sequences, its numbers as integers.
pub ghost struct SubmissionView {
    pub name: Seq<char>,
    pub email: Seq<char>,
    pub copies_nbr: int,
    pub file_name: Seq<char>,
    pub nbr_of_chunks: int,
    pub print_type: PrintType,
    pub material_type: PrintMaterialType,
}

impl View for SubmittedOrderData {
    type V = SubmissionView;

    open spec fn view(&self) -> SubmissionView {
        SubmissionView {
            name: self.name@,
            email: self.email@,
            copies_nbr: self.copies_nbr as int,
            file_name: self.file_name@,
            nbr_of_chunks: self.nbr_of_chunks as int,
            print_type: self.print_type,
            material_type: self.material_type,
        }
    }
}

impl SubmittedOrderData {
    /// A submission is accepted only with at least one copy and at least one
    /// declared chunk.
    pub open spec fn is_valid(self) -> bool {
        self.copies_nbr >= 1 && self.nbr_of_chunks >= 1
    }

    /// An exact copy of the submission.
    pub fn duplicate(&self) -> (r: SubmittedOrderData)
        ensures
            r@ == self@,
    {
        SubmittedOrderData {
            name: self.name.clone(),
            email: self.email.clone(),
            copies_nbr: self.copies_nbr,
            file_name: self.file_name.clone(),
            nbr_of_chunks: self.nbr_of_chunks,
            print_type: self.print_type,
            material_type: self.material_type,
        }
    }
}

/// What the slicer reports about one model: estimated print time in seconds
/// and material consumption in millimetres, for a resolved material.
#[derive(Clone, Copy, PartialEq, Eq, Structural, Debug)]
pub struct EvaluatedPrintingParameters {
    pub time: u32,
    pub material_mm: u32,
    pub material_type: PrintMaterialType,
}

/// One persisted order record.  `price_grosze` is the total price in minor
/// currency units; `date` is the submission timestamp used as the record key.
#[derive(PartialEq, Eq, Debug)]
pub struct EvaluationResult {
    pub date: String,
    pub name: String,
    pub email: String,
    pub copies_nbr: u32,
    pub file_name: String,
    pub price_grosze: u128,
    pub material_type: PrintMaterialType,
    pub print_type: PrintType,
    pub status: StatusType,
}

/// The mathematical image of an order record.
pub ghost struct OrderView {
    pub date: Seq<char>,
    pub name: Seq<char>,
    pub email: Seq<char>,
    pub copies_nbr: int,
    pub file_name: Seq<char>,
    pub price_grosze: int,
    pub material_type: PrintMaterialType,
    pub print_type: PrintType,
    pub status: StatusType,
}

impl View for EvaluationResult {
    type V = OrderView;

    open spec fn view(&self) -> OrderView {
        OrderView {
            date: self.date@,
            name: self.name@,
            email: self.email@,
            copies_nbr: self.copies_nbr as int,
            file_name: self.file_name@,
            price_grosze: self.price_grosze as int,
            material_type: self.material_type,
            print_type: self.print_type,
            status: self.status,
        }
    }
}

impl EvaluationResult {
    /// An exact copy of the record.
    pub fn duplicate(&self) -> (r: EvaluationResult)
        ensures
            r@ == self@,
    {
        EvaluationResult {
            date: self.date.clone(),
            name: self.name.clone(),
            email: self.email.clone(),
            copies_nbr: self.copies_nbr,
            file_name: self.file_name.clone(),
            price_grosze: self.price_grosze,
            material_type: self.material_type,
            print_type: self.print_type,
            status: self.status,
        }
    }
}

/// The rate table loaded once at startup: a material rate in minor currency
/// units per metre for each material, and three hourly-rate tiers per
/// material, selected by the hour thresholds.
pub struct PrinterConfiguration {
    pub material_rate_pla: u32,
    pub material_rate_pet: u32,
    pub material_rate_asa: u32,
    pub hourly_rate_time_threshold: [u32; 3],
    pub hourly_rate_pla_price: [u32; 3],
    pub hourly_rate_pet_price: [u32; 3],
    pub hourly_rate_asa_price: [u32; 3],
}

} // verus!
