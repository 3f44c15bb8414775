//! The process types that classify log lines: the card issuer a transaction goes to.

use vstd::prelude::*;

verus! {

/// Process type used to classify log lines by card issuer.
#[derive(Debug, Clone, Copy, PartialEq, Eq, Structural)]
pub enum ProcessType {
    VETC,
    VDTC,
    BETC,
    Local,
}

/// The process type that a BOO type code denotes: 1 is VETC, 2 is VDTC, anything else is BETC.
pub open spec fn spec_from_boo_type(boo_type: i32) -> ProcessType {
    if boo_type == 1 {
        ProcessType::VETC
    } else if boo_type == 2 {
        ProcessType::VDTC
    } else {
        ProcessType::BETC
    }
}

/// The lowercase name of a process type.
pub open spec fn name_lower(p: ProcessType) -> Seq<char> {
    match p {
        ProcessType::VETC => "vetc"@,
        ProcessType::VDTC => "vdtc"@,
        ProcessType::BETC => "betc"@,
        ProcessType::Local => "local"@,
    }
}

/// The uppercase name of a process type.
pub open spec fn name_upper(p: ProcessType) -> Seq<char> {
    match p {
        ProcessType::VETC => "VETC"@,
        ProcessType::VDTC => "VDTC"@,
        ProcessType::BETC => "BETC"@,
        ProcessType::Local => "LOCAL"@,
    }
}

impl ProcessType {
    /// From boo_type: 1=VETC, 2=VDTC, else BETC.
    pub fn from_boo_type(boo_type: i32) -> (r: ProcessType)
        ensures
            r == spec_from_boo_type(boo_type),
    {
        match boo_type {
            1 => ProcessType::VETC,
            2 => ProcessType::VDTC,
            _ => ProcessType::BETC,
        }
    }

    /// Process type name (lowercase).
    pub fn as_str(&self) -> (r: &'static str)
        ensures
            r@ == name_lower(*self),
    {
        match self {
            ProcessType::VETC => "vetc",
            ProcessType::VDTC => "vdtc",
            ProcessType::BETC => "betc",
            ProcessType::Local => "local",
        }
    }

    /// Process type name (uppercase).
    pub fn as_str_upper(&self) -> (r: &'static str)
        ensures
            r@ == name_upper(*self),
    {
        match self {
            ProcessType::VETC => "VETC",
            ProcessType::VDTC => "VDTC",
            ProcessType::BETC => "BETC",
            ProcessType::Local => "LOCAL",
        }
    }

    /// All process types except `Local`, in order.
    pub fn all_data_process_types() -> (r: Vec<ProcessType>)
        ensures
            r@ == seq![ProcessType::VETC, ProcessType::VDTC, ProcessType::BETC],
    {
        let mut v: Vec<ProcessType> = Vec::new();
        v.push(ProcessType::VETC);
        v.push(ProcessType::VDTC);
        v.push(ProcessType::BETC);
        v
    }

    /// All process types, in order.
    pub fn all() -> (r: Vec<ProcessType>)
        ensures
            r@ == seq![ProcessType::VETC, ProcessType::VDTC, ProcessType::BETC, ProcessType::Local],
    {
        let mut v: Vec<ProcessType> = Vec::new();
        v.push(ProcessType::VETC);
        v.push(ProcessType::VDTC);
        v.push(ProcessType::BETC);
        v.push(ProcessType::Local);
        v
    }
}

} // verus!
