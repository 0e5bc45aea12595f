//! The payloads that follow the header of an R object. Links to other R
//! objects are held as their addresses, 0 standing for a null link.
use vstd::prelude::*;

verus! {

/// The length fields of a vector object; its elements follow it in memory.
#[derive(Clone, Copy, Debug)]
pub struct Vec {
    pub length: usize,
    pub true_length: usize,
}

/// The payload of a builtin or special function: its offset in R's table.
#[derive(Clone, Copy, Debug)]
pub struct Prim {
    pub offset: i32,
}

/// The payload of a symbol.
#[derive(Clone, Copy, Debug)]
pub struct Sym {
    pub pname: usize,
    pub value: usize,
    pub internal: usize,
}

/// The payload of a pairlist cell.
#[derive(Clone, Copy, Debug)]
pub struct List {
    pub car: usize,
    pub cdr: usize,
    pub tag: usize,
}

/// The payload of an environment.
#[derive(Clone, Copy, Debug)]
pub struct Env {
    pub frame: usize,
    pub enclos: usize,
    pub hashtab: usize,
}

/// The payload of a closure.
#[derive(Clone, Copy, Debug)]
pub struct Clos {
    pub formals: usize,
    pub body: usize,
    pub env: usize,
}

/// The payload of a promise.
#[derive(Clone, Copy)]
pub struct Prom {
    pub value: usize,
    pub expr: usize,
    pub env: usize,
}

impl Prom {
    /// The label under which the promise's value is shown: a promise whose
    /// environment link is null has been forced, and its value is flagged.
    pub fn value_field_name(&self) -> (r: &'static str)
        ensures
            self.env == 0 ==> r@ == "===VALUE==="@,
            self.env != 0 ==> r@ == "value"@,
    {
        if self.env == 0 {
            "===VALUE==="
        } else {
            "value"
        }
    }
}

/// The payload of an object whose representation is not known here.
#[derive(Clone, Copy, Debug)]
pub struct Unknown {
    _make_reprc_able: u8,
}

impl View for Unknown {
    /// the single padding byte
    type V = u8;

    closed spec fn view(&self) -> u8 {
        self._make_reprc_able
    }
}

impl Unknown {
    /// An unknown payload, its padding byte zero.
    pub fn new() -> (r: Unknown)
        ensures
            r@ == 0,
    {
        Unknown { _make_reprc_able: 0 }
    }
}

} // verus!
