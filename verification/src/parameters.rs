//! The canonical bounded parameter set of the circulation model.
//!
//! Every scalar (current value, default, range bounds) is carried as the
//! 64-bit encoding of an IEEE-754 double.  Names are interned to dense
//! indices at build time: the catalog order is fixed, lookups in the hot
//! path go by index, and the string lookup is only used by the tolerant
//! `update` operation.

use vstd::prelude::*;
use vstd::string::StrSliceExecFns;

verus! {

/// Number of parameters in the catalog.
pub const N_PARAMS: usize = 56;

/// One model parameter: a current value, its default, its closed range
/// `[range.0, range.1]`, and whether the optimizer may vary it.
#[derive(Clone, Copy, Debug)]
pub struct Parameter {
    pub value: u64,
    pub default: u64,
    pub range: (u64, u64),
    pub fitting: bool,
}

impl Parameter {
    /// A fresh parameter starts at its default value.
    pub fn new(default: u64, range: (u64, u64), fitting: bool) -> (r: Self)
        ensures
            r == (Parameter { value: default, default, range, fitting }),
    {
        Parameter { value: default, default, range, fitting }
    }
}

/// Catalog entry at index `i`: the fixed defaults, ranges and fitting flags
/// of the model.  Each constant is the bit encoding of the decimal value
/// noted beside the corresponding entry in `HemodynamicParams::new`.
pub open spec fn catalog_at(i: int) -> Parameter {
    if i == 0 { (Parameter { value: 0x4089F00000000000, default: 0x4089F00000000000, range: (0x4079000000000000, 0x408F400000000000), fitting: true }) }
    else if i == 1 { (Parameter { value: 0x4024000000000000, default: 0x4024000000000000, range: (0x4014000000000000, 0x4062C00000000000), fitting: true }) }
    else if i == 2 { (Parameter { value: 0x4034000000000000, default: 0x4034000000000000, range: (0x4024000000000000, 0x407C200000000000), fitting: true }) }
    else if i == 3 { (Parameter { value: 0x4039000000000000, default: 0x4039000000000000, range: (0x402E000000000000, 0x404E000000000000), fitting: true }) }
    else if i == 4 { (Parameter { value: 0x402A000000000000, default: 0x402A000000000000, range: (0x4018000000000000, 0x4049000000000000), fitting: true }) }
    else if i == 5 { (Parameter { value: 0x402E000000000000, default: 0x402E000000000000, range: (0x4014000000000000, 0x403E000000000000), fitting: true }) }
    else if i == 6 { (Parameter { value: 0x3FFD47AE147AE148, default: 0x3FFD47AE147AE148, range: (0x3FE0000000000000, 0x4010000000000000), fitting: true }) }
    else if i == 7 { (Parameter { value: 0x4051800000000000, default: 0x4051800000000000, range: (0x4049000000000000, 0x406F400000000000), fitting: true }) }
    else if i == 8 { (Parameter { value: 0x4034000000000000, default: 0x4034000000000000, range: (0x4000000000000000, 0x403E000000000000), fitting: true }) }
    else if i == 9 { (Parameter { value: 0x401C000000000000, default: 0x401C000000000000, range: (0x4014000000000000, 0x402E000000000000), fitting: true }) }
    else if i == 10 { (Parameter { value: 0x4001AE147AE147AE, default: 0x4001AE147AE147AE, range: (0x3FF0000000000000, 0x4008000000000000), fitting: true }) }
    else if i == 11 { (Parameter { value: 0x3F9DB22D0E560419, default: 0x3F9DB22D0E560419, range: (0x3F947AE147AE147B, 0x3FA47AE147AE147B), fitting: true }) }
    else if i == 12 { (Parameter { value: 0x3FD5C28F5C28F5C3, default: 0x3FD5C28F5C28F5C3, range: (0x3FC70A3D70A3D70A, 0x3FD999999999999A), fitting: true }) }
    else if i == 13 { (Parameter { value: 0x3FDEB851EB851EB8, default: 0x3FDEB851EB851EB8, range: (0x3FC999999999999A, 0x3FE6666666666666), fitting: true }) }
    else if i == 14 { (Parameter { value: 0x3FADB22D0E560419, default: 0x3FADB22D0E560419, range: (0x3FA47AE147AE147B, 0x3FB1EB851EB851EC), fitting: true }) }
    else if i == 15 { (Parameter { value: 0x3FDC28F5C28F5C29, default: 0x3FDC28F5C28F5C29, range: (0x3FD3333333333333, 0x3FE3333333333333), fitting: true }) }
    else if i == 16 { (Parameter { value: 0x3FE7AE147AE147AE, default: 0x3FE7AE147AE147AE, range: (0x3FE0000000000000, 0x3FF8000000000000), fitting: true }) }
    else if i == 17 { (Parameter { value: 0x3F9CAC083126E979, default: 0x3F9CAC083126E979, range: (0x3F847AE147AE147B, 0x3FA1EB851EB851EC), fitting: true }) }
    else if i == 18 { (Parameter { value: 0x3FD5C28F5C28F5C3, default: 0x3FD5C28F5C28F5C3, range: (0x3FC3333333333333, 0x3FE0000000000000), fitting: true }) }
    else if i == 19 { (Parameter { value: 0x3FD851EB851EB852, default: 0x3FD851EB851EB852, range: (0x3FC999999999999A, 0x3FE3333333333333), fitting: true }) }
    else if i == 20 { (Parameter { value: 0x3FA78D4FDF3B645A, default: 0x3FA78D4FDF3B645A, range: (0x3F9EB851EB851EB8, 0x3FB1EB851EB851EC), fitting: true }) }
    else if i == 21 { (Parameter { value: 0x3FDC28F5C28F5C29, default: 0x3FDC28F5C28F5C29, range: (0x3FD3333333333333, 0x3FE0000000000000), fitting: true }) }
    else if i == 22 { (Parameter { value: 0x40876FDFD74CD731, default: 0x40876FDFD74CD731, range: (0x4069000000000000, 0x40B7700000000000), fitting: true }) }
    else if i == 23 { (Parameter { value: 0x403E000000000000, default: 0x403E000000000000, range: (0x4024000000000000, 0x4059000000000000), fitting: true }) }
    else if i == 24 { (Parameter { value: 0x402E000000000000, default: 0x402E000000000000, range: (0x4014000000000000, 0x4049000000000000), fitting: true }) }
    else if i == 25 { (Parameter { value: 0x4004000000000000, default: 0x4004000000000000, range: (0x4004000000000000, 0x4004000000000000), fitting: false }) }
    else if i == 26 { (Parameter { value: 0x4004000000000000, default: 0x4004000000000000, range: (0x4004000000000000, 0x4004000000000000), fitting: false }) }
    else if i == 27 { (Parameter { value: 0x3FE147AE147AE148, default: 0x3FE147AE147AE148, range: (0x3FE147AE147AE148, 0x3FE147AE147AE148), fitting: false }) }
    else if i == 28 { (Parameter { value: 0x3FF0000000000000, default: 0x3FF0000000000000, range: (0x3FF0000000000000, 0x3FF0000000000000), fitting: false }) }
    else if i == 29 { (Parameter { value: 0x4014000000000000, default: 0x4014000000000000, range: (0x3FF0000000000000, 0x4049000000000000), fitting: true }) }
    else if i == 30 { (Parameter { value: 0x4072C00000000000, default: 0x4072C00000000000, range: (0x4072C00000000000, 0x4072C00000000000), fitting: false }) }
    else if i == 31 { (Parameter { value: 0x4039000000000000, default: 0x4039000000000000, range: (0x4039000000000000, 0x4039000000000000), fitting: false }) }
    else if i == 32 { (Parameter { value: 0x4064000000000000, default: 0x4064000000000000, range: (0x4064000000000000, 0x4064000000000000), fitting: false }) }
    else if i == 33 { (Parameter { value: 0x4024000000000000, default: 0x4024000000000000, range: (0x4014000000000000, 0x4034000000000000), fitting: true }) }
    else if i == 34 { (Parameter { value: 0x405F400000000000, default: 0x405F400000000000, range: (0x405F400000000000, 0x405F400000000000), fitting: false }) }
    else if i == 35 { (Parameter { value: 0x4034000000000000, default: 0x4034000000000000, range: (0x4034000000000000, 0x4034000000000000), fitting: false }) }
    else if i == 36 { (Parameter { value: 0x0000000000000000, default: 0x0000000000000000, range: (0x0000000000000000, 0x0000000000000000), fitting: false }) }
    else if i == 37 { (Parameter { value: 0x4014000000000000, default: 0x4014000000000000, range: (0x4000000000000000, 0x403E000000000000), fitting: true }) }
    else if i == 38 { (Parameter { value: 0x4072C00000000000, default: 0x4072C00000000000, range: (0x4072C00000000000, 0x4072C00000000000), fitting: false }) }
    else if i == 39 { (Parameter { value: 0x4039000000000000, default: 0x4039000000000000, range: (0x4039000000000000, 0x4039000000000000), fitting: false }) }
    else if i == 40 { (Parameter { value: 0x4064000000000000, default: 0x4064000000000000, range: (0x4064000000000000, 0x4064000000000000), fitting: false }) }
    else if i == 41 { (Parameter { value: 0x4024000000000000, default: 0x4024000000000000, range: (0x4008000000000000, 0x403E000000000000), fitting: true }) }
    else if i == 42 { (Parameter { value: 0x405F400000000000, default: 0x405F400000000000, range: (0x405F400000000000, 0x405F400000000000), fitting: false }) }
    else if i == 43 { (Parameter { value: 0x4034000000000000, default: 0x4034000000000000, range: (0x4034000000000000, 0x4034000000000000), fitting: false }) }
    else if i == 44 { (Parameter { value: 0x0000000000000000, default: 0x0000000000000000, range: (0x0000000000000000, 0x0000000000000000), fitting: false }) }
    else if i == 45 { (Parameter { value: 0x4056800000000000, default: 0x4056800000000000, range: (0x4056800000000000, 0x4056800000000000), fitting: false }) }
    else if i == 46 { (Parameter { value: 0x0000000000000000, default: 0x0000000000000000, range: (0x0000000000000000, 0x0000000000000000), fitting: false }) }
    else if i == 47 { (Parameter { value: 0x40F86A0000000000, default: 0x40F86A0000000000, range: (0x40F86A0000000000, 0x40F86A0000000000), fitting: false }) }
    else if i == 48 { (Parameter { value: 0x40F86A0000000000, default: 0x40F86A0000000000, range: (0x40F86A0000000000, 0x40F86A0000000000), fitting: false }) }
    else if i == 49 { (Parameter { value: 0x0000000000000000, default: 0x0000000000000000, range: (0x0000000000000000, 0x0000000000000000), fitting: false }) }
    else if i == 50 { (Parameter { value: 0x40F86A0000000000, default: 0x40F86A0000000000, range: (0x40F86A0000000000, 0x40F86A0000000000), fitting: false }) }
    else if i == 51 { (Parameter { value: 0x0000000000000000, default: 0x0000000000000000, range: (0x0000000000000000, 0x0000000000000000), fitting: false }) }
    else if i == 52 { (Parameter { value: 0x40F86A0000000000, default: 0x40F86A0000000000, range: (0x40F86A0000000000, 0x40F86A0000000000), fitting: false }) }
    else if i == 53 { (Parameter { value: 0x0000000000000000, default: 0x0000000000000000, range: (0x0000000000000000, 0x0000000000000000), fitting: false }) }
    else if i == 54 { (Parameter { value: 0x4008000000000000, default: 0x4008000000000000, range: (0x4008000000000000, 0x4008000000000000), fitting: false }) }
    else if i == 55 { (Parameter { value: 0x3FE0A3D70A3D70A4, default: 0x3FE0A3D70A3D70A4, range: (0x3FE0A3D70A3D70A4, 0x3FE0A3D70A3D70A4), fitting: false }) }
    else { (Parameter { value: 0, default: 0, range: (0, 0), fitting: false }) }
}

/// Name of the catalog entry at index `i`.
pub open spec fn param_name(i: int) -> Seq<char> {
    if i == 0 { "Rcs"@ }
    else if i == 1 { "Rcp"@ }
    else if i == 2 { "Ras"@ }
    else if i == 3 { "Rvs"@ }
    else if i == 4 { "Rap"@ }
    else if i == 5 { "Rvp"@ }
    else if i == 6 { "Cas"@ }
    else if i == 7 { "Cvs"@ }
    else if i == 8 { "Cap"@ }
    else if i == 9 { "Cvp"@ }
    else if i == 10 { "LV_Ees"@ }
    else if i == 11 { "LV_alpha"@ }
    else if i == 12 { "LV_beta"@ }
    else if i == 13 { "LA_Ees"@ }
    else if i == 14 { "LA_alpha"@ }
    else if i == 15 { "LA_beta"@ }
    else if i == 16 { "RV_Ees"@ }
    else if i == 17 { "RV_alpha"@ }
    else if i == 18 { "RV_beta"@ }
    else if i == 19 { "RA_Ees"@ }
    else if i == 20 { "RA_alpha"@ }
    else if i == 21 { "RA_beta"@ }
    else if i == 22 { "Qvs_initial"@ }
    else if i == 23 { "Ras_prox"@ }
    else if i == 24 { "Rap_prox"@ }
    else if i == 25 { "Rmv"@ }
    else if i == 26 { "Rtv"@ }
    else if i == 27 { "Cas_prox"@ }
    else if i == 28 { "Cap_prox"@ }
    else if i == 29 { "LV_V0"@ }
    else if i == 30 { "LV_Tmax"@ }
    else if i == 31 { "LV_tau"@ }
    else if i == 32 { "LV_AV_delay"@ }
    else if i == 33 { "LA_V0"@ }
    else if i == 34 { "LA_Tmax"@ }
    else if i == 35 { "LA_tau"@ }
    else if i == 36 { "LA_AV_delay"@ }
    else if i == 37 { "RV_V0"@ }
    else if i == 38 { "RV_Tmax"@ }
    else if i == 39 { "RV_tau"@ }
    else if i == 40 { "RV_AV_delay"@ }
    else if i == 41 { "RA_V0"@ }
    else if i == 42 { "RA_Tmax"@ }
    else if i == 43 { "RA_tau"@ }
    else if i == 44 { "RA_AV_delay"@ }
    else if i == 45 { "HR"@ }
    else if i == 46 { "Ravs"@ }
    else if i == 47 { "Ravr"@ }
    else if i == 48 { "Rmvr"@ }
    else if i == 49 { "Rmvs"@ }
    else if i == 50 { "Rpvr"@ }
    else if i == 51 { "Rpvs"@ }
    else if i == 52 { "Rtvr"@ }
    else if i == 53 { "Rtvs"@ }
    else if i == 54 { "Rda"@ }
    else if i == 55 { "Cda"@ }
    else { Seq::empty() }
}

/// The full parameter set, as a dense array in catalog order.
pub struct HemodynamicParams {
    pub parameters: Vec<Parameter>,
}

impl View for HemodynamicParams {
    type V = Seq<Parameter>;

    open spec fn view(&self) -> Seq<Parameter> {
        self.parameters@
    }
}

/// Exact character-wise string comparison.
pub fn str_eq(a: &str, b: &str) -> (r: bool)
    ensures
        r == (a@ == b@),
{
    let n = a.unicode_len();
    if n != b.unicode_len() {
        return false;
    }
    for i in 0..n
        invariant
            n == a@.len(),
            n == b@.len(),
            forall|j: int| 0 <= j < i ==> a@[j] == b@[j],
    {
        if a.get_char(i) != b.get_char(i) {
            return false;
        }
    }
    proof {
        assert(a@ =~= b@);
    }
    true
}

/// The name of catalog index `i`.
pub fn name_of(i: usize) -> (r: &'static str)
    requires
        i < N_PARAMS,
    ensures
        r@ == param_name(i as int),
{
    match i {
        0 => "Rcs",
        1 => "Rcp",
        2 => "Ras",
        3 => "Rvs",
        4 => "Rap",
        5 => "Rvp",
        6 => "Cas",
        7 => "Cvs",
        8 => "Cap",
        9 => "Cvp",
        10 => "LV_Ees",
        11 => "LV_alpha",
        12 => "LV_beta",
        13 => "LA_Ees",
        14 => "LA_alpha",
        15 => "LA_beta",
        16 => "RV_Ees",
        17 => "RV_alpha",
        18 => "RV_beta",
        19 => "RA_Ees",
        20 => "RA_alpha",
        21 => "RA_beta",
        22 => "Qvs_initial",
        23 => "Ras_prox",
        24 => "Rap_prox",
        25 => "Rmv",
        26 => "Rtv",
        27 => "Cas_prox",
        28 => "Cap_prox",
        29 => "LV_V0",
        30 => "LV_Tmax",
        31 => "LV_tau",
        32 => "LV_AV_delay",
        33 => "LA_V0",
        34 => "LA_Tmax",
        35 => "LA_tau",
        36 => "LA_AV_delay",
        37 => "RV_V0",
        38 => "RV_Tmax",
        39 => "RV_tau",
        40 => "RV_AV_delay",
        41 => "RA_V0",
        42 => "RA_Tmax",
        43 => "RA_tau",
        44 => "RA_AV_delay",
        45 => "HR",
        46 => "Ravs",
        47 => "Ravr",
        48 => "Rmvr",
        49 => "Rmvs",
        50 => "Rpvr",
        51 => "Rpvs",
        52 => "Rtvr",
        53 => "Rtvs",
        54 => "Rda",
        _ => "Cda",
    }
}

/// Index of the first catalog entry called `name`, if any.
pub fn param_index(name: &str) -> (r: Option<usize>)
    ensures
        match r {
            Some(i) => i < N_PARAMS && name@ == param_name(i as int) && (forall|j: int|
                0 <= j < i ==> name@ != param_name(j)),
            None => forall|j: int| 0 <= j < N_PARAMS ==> name@ != param_name(j),
        },
{
    for i in 0..N_PARAMS
        invariant
            forall|j: int| 0 <= j < i ==> name@ != param_name(j),
    {
        if str_eq(name, name_of(i)) {
            return Some(i);
        }
    }
    None
}

/// The parameter `p` with its current value replaced and all other fields kept.
pub open spec fn with_value(p: Parameter, v: u64) -> Parameter {
    Parameter { value: v, default: p.default, range: p.range, fitting: p.fitting }
}

/// The parameter `p` with any supplied fields replaced; absent fields keep
/// their current contents.
pub open spec fn apply_update(
    p: Parameter,
    value: Option<u64>,
    range: Option<(u64, u64)>,
    fitting: Option<bool>,
) -> Parameter {
    Parameter {
        value: match value {
            Some(v) => v,
            None => p.value,
        },
        default: p.default,
        range: match range {
            Some(rg) => rg,
            None => p.range,
        },
        fitting: match fitting {
            Some(f) => f,
            None => p.fitting,
        },
    }
}

impl HemodynamicParams {
    /// The set holds exactly the catalog, in catalog order.
    pub open spec fn wf(&self) -> bool {
        self@.len() == N_PARAMS
    }

    /// Build the full catalog; every entry starts at its default value.
    #[verifier::rlimit(60)]
    pub fn new() -> (r: Self)
        ensures
            r.wf(),
            forall|i: int| 0 <= i < N_PARAMS ==> r@[i] == catalog_at(i),
    {
        let mut v: Vec<Parameter> = Vec::with_capacity(N_PARAMS);
    v.push(Parameter::new(0x4089F00000000000, (0x4079000000000000, 0x408F400000000000), true));  // Rcs: 830.0 in [400.0, 1000.0]
    v.push(Parameter::new(0x4024000000000000, (0x4014000000000000, 0x4062C00000000000), true));  // Rcp: 10.0 in [5.0, 150.0]
    v.push(Parameter::new(0x4034000000000000, (0x4024000000000000, 0x407C200000000000), true));  // Ras: 20.0 in [10.0, 450.0]
    v.push(Parameter::new(0x4039000000000000, (0x402E000000000000, 0x404E000000000000), true));  // Rvs: 25.0 in [15.0, 60.0]
    v.push(Parameter::new(0x402A000000000000, (0x4018000000000000, 0x4049000000000000), true));  // Rap: 13.0 in [6.0, 50.0]
    v.push(Parameter::new(0x402E000000000000, (0x4014000000000000, 0x403E000000000000), true));  // Rvp: 15.0 in [5.0, 30.0]
    v.push(Parameter::new(0x3FFD47AE147AE148, (0x3FE0000000000000, 0x4010000000000000), true));  // Cas: 1.83 in [0.5, 4.0]
    v.push(Parameter::new(0x4051800000000000, (0x4049000000000000, 0x406F400000000000), true));  // Cvs: 70.0 in [50.0, 250.0]
    v.push(Parameter::new(0x4034000000000000, (0x4000000000000000, 0x403E000000000000), true));  // Cap: 20.0 in [2.0, 30.0]
    v.push(Parameter::new(0x401C000000000000, (0x4014000000000000, 0x402E000000000000), true));  // Cvp: 7.0 in [5.0, 15.0]
    v.push(Parameter::new(0x4001AE147AE147AE, (0x3FF0000000000000, 0x4008000000000000), true));  // LV_Ees: 2.21 in [1.0, 3.0]
    v.push(Parameter::new(0x3F9DB22D0E560419, (0x3F947AE147AE147B, 0x3FA47AE147AE147B), true));  // LV_alpha: 0.029 in [0.02, 0.04]
    v.push(Parameter::new(0x3FD5C28F5C28F5C3, (0x3FC70A3D70A3D70A, 0x3FD999999999999A), true));  // LV_beta: 0.34 in [0.18, 0.4]
    v.push(Parameter::new(0x3FDEB851EB851EB8, (0x3FC999999999999A, 0x3FE6666666666666), true));  // LA_Ees: 0.48 in [0.2, 0.7]
    v.push(Parameter::new(0x3FADB22D0E560419, (0x3FA47AE147AE147B, 0x3FB1EB851EB851EC), true));  // LA_alpha: 0.058 in [0.04, 0.07]
    v.push(Parameter::new(0x3FDC28F5C28F5C29, (0x3FD3333333333333, 0x3FE3333333333333), true));  // LA_beta: 0.44 in [0.3, 0.6]
    v.push(Parameter::new(0x3FE7AE147AE147AE, (0x3FE0000000000000, 0x3FF8000000000000), true));  // RV_Ees: 0.74 in [0.5, 1.5]
    v.push(Parameter::new(0x3F9CAC083126E979, (0x3F847AE147AE147B, 0x3FA1EB851EB851EC), true));  // RV_alpha: 0.028 in [0.01, 0.035]
    v.push(Parameter::new(0x3FD5C28F5C28F5C3, (0x3FC3333333333333, 0x3FE0000000000000), true));  // RV_beta: 0.34 in [0.15, 0.5]
    v.push(Parameter::new(0x3FD851EB851EB852, (0x3FC999999999999A, 0x3FE3333333333333), true));  // RA_Ees: 0.38 in [0.2, 0.6]
    v.push(Parameter::new(0x3FA78D4FDF3B645A, (0x3F9EB851EB851EB8, 0x3FB1EB851EB851EC), true));  // RA_alpha: 0.046 in [0.03, 0.07]
    v.push(Parameter::new(0x3FDC28F5C28F5C29, (0x3FD3333333333333, 0x3FE0000000000000), true));  // RA_beta: 0.44 in [0.3, 0.5]
    v.push(Parameter::new(0x40876FDFD74CD731, (0x4069000000000000, 0x40B7700000000000), true));  // Qvs_initial: 749.9842973712131 in [200.0, 6000.0]
    v.push(Parameter::new(0x403E000000000000, (0x4024000000000000, 0x4059000000000000), true));  // Ras_prox: 30.0 in [10.0, 100.0]
    v.push(Parameter::new(0x402E000000000000, (0x4014000000000000, 0x4049000000000000), true));  // Rap_prox: 15.0 in [5.0, 50.0]
    v.push(Parameter::new(0x4004000000000000, (0x4004000000000000, 0x4004000000000000), false));  // Rmv: 2.5 in [2.5, 2.5]
    v.push(Parameter::new(0x4004000000000000, (0x4004000000000000, 0x4004000000000000), false));  // Rtv: 2.5 in [2.5, 2.5]
    v.push(Parameter::new(0x3FE147AE147AE148, (0x3FE147AE147AE148, 0x3FE147AE147AE148), false));  // Cas_prox: 0.54 in [0.54, 0.54]
    v.push(Parameter::new(0x3FF0000000000000, (0x3FF0000000000000, 0x3FF0000000000000), false));  // Cap_prox: 1.0 in [1.0, 1.0]
    v.push(Parameter::new(0x4014000000000000, (0x3FF0000000000000, 0x4049000000000000), true));  // LV_V0: 5.0 in [1.0, 50.0]
    v.push(Parameter::new(0x4072C00000000000, (0x4072C00000000000, 0x4072C00000000000), false));  // LV_Tmax: 300.0 in [300.0, 300.0]
    v.push(Parameter::new(0x4039000000000000, (0x4039000000000000, 0x4039000000000000), false));  // LV_tau: 25.0 in [25.0, 25.0]
    v.push(Parameter::new(0x4064000000000000, (0x4064000000000000, 0x4064000000000000), false));  // LV_AV_delay: 160.0 in [160.0, 160.0]
    v.push(Parameter::new(0x4024000000000000, (0x4014000000000000, 0x4034000000000000), true));  // LA_V0: 10.0 in [5.0, 20.0]
    v.push(Parameter::new(0x405F400000000000, (0x405F400000000000, 0x405F400000000000), false));  // LA_Tmax: 125.0 in [125.0, 125.0]
    v.push(Parameter::new(0x4034000000000000, (0x4034000000000000, 0x4034000000000000), false));  // LA_tau: 20.0 in [20.0, 20.0]
    v.push(Parameter::new(0x0000000000000000, (0x0000000000000000, 0x0000000000000000), false));  // LA_AV_delay: 0.0 in [0.0, 0.0]
    v.push(Parameter::new(0x4014000000000000, (0x4000000000000000, 0x403E000000000000), true));  // RV_V0: 5.0 in [2.0, 30.0]
    v.push(Parameter::new(0x4072C00000000000, (0x4072C00000000000, 0x4072C00000000000), false));  // RV_Tmax: 300.0 in [300.0, 300.0]
    v.push(Parameter::new(0x4039000000000000, (0x4039000000000000, 0x4039000000000000), false));  // RV_tau: 25.0 in [25.0, 25.0]
    v.push(Parameter::new(0x4064000000000000, (0x4064000000000000, 0x4064000000000000), false));  // RV_AV_delay: 160.0 in [160.0, 160.0]
    v.push(Parameter::new(0x4024000000000000, (0x4008000000000000, 0x403E000000000000), true));  // RA_V0: 10.0 in [3.0, 30.0]
    v.push(Parameter::new(0x405F400000000000, (0x405F400000000000, 0x405F400000000000), false));  // RA_Tmax: 125.0 in [125.0, 125.0]
    v.push(Parameter::new(0x4034000000000000, (0x4034000000000000, 0x4034000000000000), false));  // RA_tau: 20.0 in [20.0, 20.0]
    v.push(Parameter::new(0x0000000000000000, (0x0000000000000000, 0x0000000000000000), false));  // RA_AV_delay: 0.0 in [0.0, 0.0]
    v.push(Parameter::new(0x4056800000000000, (0x4056800000000000, 0x4056800000000000), false));  // HR: 90.0 in [90.0, 90.0]
    v.push(Parameter::new(0x0000000000000000, (0x0000000000000000, 0x0000000000000000), false));  // Ravs: 0.0 in [0.0, 0.0]
    v.push(Parameter::new(0x40F86A0000000000, (0x40F86A0000000000, 0x40F86A0000000000), false));  // Ravr: 100000.0 in [100000.0, 100000.0]
    v.push(Parameter::new(0x40F86A0000000000, (0x40F86A0000000000, 0x40F86A0000000000), false));  // Rmvr: 100000.0 in [100000.0, 100000.0]
    v.push(Parameter::new(0x0000000000000000, (0x0000000000000000, 0x0000000000000000), false));  // Rmvs: 0.0 in [0.0, 0.0]
    v.push(Parameter::new(0x40F86A0000000000, (0x40F86A0000000000, 0x40F86A0000000000), false));  // Rpvr: 100000.0 in [100000.0, 100000.0]
    v.push(Parameter::new(0x0000000000000000, (0x0000000000000000, 0x0000000000000000), false));  // Rpvs: 0.0 in [0.0, 0.0]
    v.push(Parameter::new(0x40F86A0000000000, (0x40F86A0000000000, 0x40F86A0000000000), false));  // Rtvr: 100000.0 in [100000.0, 100000.0]
    v.push(Parameter::new(0x0000000000000000, (0x0000000000000000, 0x0000000000000000), false));  // Rtvs: 0.0 in [0.0, 0.0]
    v.push(Parameter::new(0x4008000000000000, (0x4008000000000000, 0x4008000000000000), false));  // Rda: 3.0 in [3.0, 3.0]
    v.push(Parameter::new(0x3FE0A3D70A3D70A4, (0x3FE0A3D70A3D70A4, 0x3FE0A3D70A3D70A4), false));  // Cda: 0.52 in [0.52, 0.52]
        let r = HemodynamicParams { parameters: v };
        r
    }

    /// Tolerant update: the entry called `name` takes the supplied fields;
    /// an unknown name changes nothing.  The range invariant is not
    /// re-established here: the caller is trusted, and the optimizer never
    /// updates a set mid-run.
    pub fn update(
        &mut self,
        name: &str,
        value: Option<u64>,
        range: Option<(u64, u64)>,
        fitting: Option<bool>,
    )
        requires
            old(self).wf(),
        ensures
            final(self).wf(),
            forall|i: int|
                0 <= i < N_PARAMS && name@ != param_name(i) ==> final(self)@[i] == old(self)@[i],
            forall|i: int|
                0 <= i < N_PARAMS && name@ == param_name(i) && (forall|j: int|
                    0 <= j < i ==> name@ != param_name(j)) ==> final(self)@[i] == apply_update(
                    old(self)@[i],
                    value,
                    range,
                    fitting,
                ),
    {
        match param_index(name) {
            Some(i) => {
                let mut p = self.parameters[i];
                if let Some(v) = value {
                    p.value = v;
                }
                if let Some(rg) = range {
                    p.range = rg;
                }
                if let Some(f) = fitting {
                    p.fitting = f;
                }
                self.parameters[i] = p;
            },
            None => {},
        }
    }
}

impl Clone for HemodynamicParams {
    /// A clone carries the same parameters.
    fn clone(&self) -> (r: Self)
        ensures
            r@ == self@,
    {
        let r = HemodynamicParams { parameters: self.parameters.clone() };
        proof {
            assert(r@ =~= self@);
        }
        r
    }
}

impl Default for HemodynamicParams {
    /// The default set is the catalog.
    fn default() -> (r: Self)
        ensures
            r.wf(),
            forall|i: int| 0 <= i < N_PARAMS ==> r@[i] == catalog_at(i),
    {
        HemodynamicParams::new()
    }
}

} // verus!
