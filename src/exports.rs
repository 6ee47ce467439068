use vstd::prelude::*;
use crate::codec::{
    encode, encode_error, encoded_as, is_supported, is_zero_of, zero_value, ConversionErrorKind,
    Token, TypeDescriptor, TypeKind, Value,
};

verus! {

/// A function that an interface exports, with its declared signature.
#[derive(Debug)]
pub struct ExportedFunction {
    pub name: String,
    pub params: Vec<TypeDescriptor>,
    pub results: Vec<TypeDescriptor>,
}

/// An exported interface (such as `ns:pkg/iface@1.0.0`) and its functions,
/// in the order the artifact declares them.
#[derive(Debug)]
pub struct ExportedInterface {
    pub name: String,
    pub functions: Vec<ExportedFunction>,
}

/// Where a conversion failed: among the parameters or among the result slots.
#[derive(Debug, Clone, Copy, PartialEq, Eq, Structural)]
pub enum Slot {
    Param,
    Result,
}

/// A failed conversion, at a position, with the shape that was expected there
/// and the token that was offered (empty for a result slot).
#[derive(Debug)]
pub struct ConversionError {
    pub kind: ConversionErrorKind,
    pub slot: Slot,
    pub index: usize,
    pub expected: TypeKind,
    pub token: String,
}

#[derive(Debug)]
pub enum InvokeError {
    /// The artifact exports no interface to fall back on.
    NoExports,
    /// No interface of that name is exported.
    InterfaceNotFound(String),
    /// The chosen interface has no function of that name.
    FunctionNotFound(String),
    /// The number of tokens differs from the number of declared parameters.
    ArgumentCount { expected: usize, given: usize },
    Conversion(ConversionError),
}

/// A call made ready: the interface and function chosen (as positions in the
/// directory), the encoded arguments, and the zeroed result slots.
#[derive(Debug)]
pub struct PreparedCall {
    pub interface: usize,
    pub function: usize,
    pub params: Vec<Value>,
    pub results: Vec<Value>,
}

pub open spec fn name_view(o: Option<String>) -> Option<Seq<char>> {
    match o {
        Some(s) => Some(s@),
        None => None,
    }
}

/// Interface `i` is the one a call goes to: the first declared of the wanted
/// name, or, where no name is wanted, the first declared of all.
pub open spec fn interface_chosen(ex: Seq<ExportedInterface>, wanted: Option<Seq<char>>, i: int) -> bool {
    0 <= i < ex.len() && match wanted {
        None => i == 0,
        Some(n) => ex[i].name@ == n && forall|j: int| 0 <= j < i ==> (#[trigger] ex[j]).name@ != n,
    }
}

/// Function `k` is the first of `fs` with the name `n`.
pub open spec fn function_chosen(fs: Seq<ExportedFunction>, n: Seq<char>, k: int) -> bool {
    0 <= k < fs.len() && fs[k].name@ == n && forall|j: int| 0 <= j < k ==> (#[trigger] fs[j]).name@ != n
}

pub open spec fn all_supported(ds: Seq<TypeDescriptor>) -> bool {
    forall|i: int| 0 <= i < ds.len() ==> is_supported(#[trigger] ds[i])
}

/// Position `i` holds the first shape of `ds` outside the supported set.
pub open spec fn first_unsupported(ds: Seq<TypeDescriptor>, i: int) -> bool {
    0 <= i < ds.len() && !is_supported(ds[i]) && forall|j: int| 0 <= j < i ==> is_supported(#[trigger] ds[j])
}

/// Every token encodes as the parameter at its position.
pub open spec fn all_encode(ps: Seq<TypeDescriptor>, ts: Seq<Token>) -> bool {
    forall|i: int| 0 <= i < ps.len() ==> (#[trigger] encode_error(ps[i], ts[i])) is None
}

/// `e` reports the first token that does not encode as its parameter.
pub open spec fn first_encode_failure(ps: Seq<TypeDescriptor>, ts: Seq<Token>, e: ConversionError) -> bool {
    let i = e.index as int;
    &&& e.slot == Slot::Param
    &&& i < ps.len()
    &&& encode_error(ps[i], ts[i]) == Some(e.kind)
    &&& forall|j: int| 0 <= j < i ==> (#[trigger] encode_error(ps[j], ts[j])) is None
    &&& e.expected == ps[i].kind()
    &&& e.token@ == ts[i].text@
}

/// `vs` is the list of values that the tokens encode to.
pub open spec fn encoded_all(ps: Seq<TypeDescriptor>, ts: Seq<Token>, vs: Seq<Value>) -> bool {
    vs.len() == ps.len() && forall|i: int| 0 <= i < ps.len() ==> encoded_as(ps[i], ts[i], #[trigger] vs[i])
}

/// `vs` holds the zero of each shape of `ds`.
pub open spec fn zeros_of(ds: Seq<TypeDescriptor>, vs: Seq<Value>) -> bool {
    vs.len() == ds.len() && forall|i: int| 0 <= i < ds.len() ==> is_zero_of(ds[i], #[trigger] vs[i])
}

/// Chooses the interface a call goes to: the first declared one of the wanted
/// name or, where none is named, the first declared one of all.
pub fn select_interface(exports: &Vec<ExportedInterface>, wanted: &Option<String>) -> (r: Result<usize, InvokeError>)
    ensures
        r matches Ok(i) ==> interface_chosen(exports@, name_view(*wanted), i as int),
        r is Err ==> forall|i: int| !interface_chosen(exports@, name_view(*wanted), i),
        *wanted is None ==> (r is Ok <==> exports@.len() > 0),
        r matches Err(e) ==> match *wanted {
            None => e is NoExports,
            Some(n) => e matches InvokeError::InterfaceNotFound(m) && m@ == n@,
        },
{
    match wanted {
        None => if exports.len() == 0 {
            Err(InvokeError::NoExports)
        } else {
            Ok(0)
        },
        Some(n) => {
            let mut i: usize = 0;
            assert(name_view(*wanted) == Some(n@));
            while i < exports.len()
                invariant
                    name_view(*wanted) == Some(n@),
                    i <= exports@.len(),
                    forall|j: int| 0 <= j < i ==> (#[trigger] exports@[j]).name@ != n@,
                decreases exports.len() - i,
            {
                if exports[i].name == *n {
                    return Ok(i);
                }
                i = i + 1;
            }
            Err(InvokeError::InterfaceNotFound(n.clone()))
        },
    }
}

/// Finds the first function of `iface` with the given name.
pub fn find_function(iface: &ExportedInterface, name: &String) -> (r: Result<usize, InvokeError>)
    ensures
        r matches Ok(k) ==> function_chosen(iface.functions@, name@, k as int),
        r is Err ==> forall|k: int| !function_chosen(iface.functions@, name@, k),
        r matches Err(e) ==> e matches InvokeError::FunctionNotFound(m) && m@ == name@,
{
    let mut k: usize = 0;
    while k < iface.functions.len()
        invariant
            k <= iface.functions@.len(),
            forall|j: int| 0 <= j < k ==> (#[trigger] iface.functions@[j]).name@ != name@,
        decreases iface.functions.len() - k,
    {
        if iface.functions[k].name == *name {
            return Ok(k);
        }
        k = k + 1;
    }
    Err(InvokeError::FunctionNotFound(name.clone()))
}

/// Finds the first shape of `ds` outside the supported set.
pub fn find_unsupported(ds: &Vec<TypeDescriptor>) -> (r: Option<usize>)
    ensures
        r matches Some(i) ==> first_unsupported(ds@, i as int),
        r is None <==> all_supported(ds@),
{
    let mut i: usize = 0;
    while i < ds.len()
        invariant
            i <= ds@.len(),
            forall|j: int| 0 <= j < i ==> is_supported(#[trigger] ds@[j]),
        decreases ds.len() - i,
    {
        match ds[i] {
            TypeDescriptor::List(_) => return Some(i),
            TypeDescriptor::Other(_) => return Some(i),
            _ => {},
        }
        i = i + 1;
    }
    None
}

/// Encodes the tokens as the parameters, all or nothing: the counts must be
/// equal, and the first token that does not encode is reported.
pub fn encode_params(params: &Vec<TypeDescriptor>, tokens: &Vec<Token>) -> (r: Result<Vec<Value>, InvokeError>)
    ensures
        params@.len() != tokens@.len() <==> r matches Err(InvokeError::ArgumentCount { .. }),
        r matches Err(InvokeError::ArgumentCount { expected, given }) ==> expected == params@.len()
            && given == tokens@.len(),
        r is Ok <==> params@.len() == tokens@.len() && all_encode(params@, tokens@),
        r matches Ok(vs) ==> encoded_all(params@, tokens@, vs@),
        r is Err ==> r matches Err(InvokeError::ArgumentCount { .. }) || r matches Err(
            InvokeError::Conversion(_),
        ),
        r matches Err(InvokeError::Conversion(e)) ==> first_encode_failure(params@, tokens@, e),
{
    if params.len() != tokens.len() {
        return Err(InvokeError::ArgumentCount { expected: params.len(), given: tokens.len() });
    }
    let mut out: Vec<Value> = Vec::new();
    let mut i: usize = 0;
    while i < params.len()
        invariant
            params@.len() == tokens@.len(),
            i <= params@.len(),
            out@.len() == i,
            forall|j: int| 0 <= j < i ==> (#[trigger] encode_error(params@[j], tokens@[j])) is None,
            forall|j: int| 0 <= j < i ==> encoded_as(params@[j], tokens@[j], #[trigger] out@[j]),
        decreases params.len() - i,
    {
        match encode(&params[i], &tokens[i]) {
            Ok(v) => out.push(v),
            Err(kind) => {
                let e = ConversionError {
                    kind,
                    slot: Slot::Param,
                    index: i,
                    expected: params[i].kind(),
                    token: tokens[i].text.clone(),
                };
                return Err(InvokeError::Conversion(e));
            },
        }
        i = i + 1;
    }
    Ok(out)
}

/// The zeroed result slots for the declared results, or the first result
/// whose shape is outside the supported set.
pub fn zero_results(results: &Vec<TypeDescriptor>) -> (r: Result<Vec<Value>, ConversionError>)
    ensures
        r is Ok <==> all_supported(results@),
        r matches Ok(vs) ==> zeros_of(results@, vs@),
        r matches Err(e) ==> e.kind == ConversionErrorKind::UnsupportedType && e.slot == Slot::Result
            && first_unsupported(results@, e.index as int) && e.expected
            == results@[e.index as int].kind() && e.token@.len() == 0,
{
    let mut out: Vec<Value> = Vec::new();
    let mut i: usize = 0;
    while i < results.len()
        invariant
            i <= results@.len(),
            out@.len() == i,
            forall|j: int| 0 <= j < i ==> is_supported(#[trigger] results@[j]),
            forall|j: int| 0 <= j < i ==> is_zero_of(results@[j], #[trigger] out@[j]),
        decreases results.len() - i,
    {
        match zero_value(&results[i]) {
            Some(v) => out.push(v),
            None => {
                return Err(
                    ConversionError {
                        kind: ConversionErrorKind::UnsupportedType,
                        slot: Slot::Result,
                        index: i,
                        expected: results[i].kind(),
                        token: String::new(),
                    },
                );
            },
        }
        i = i + 1;
    }
    Ok(out)
}

fn unsupported_error(ds: &Vec<TypeDescriptor>, i: usize, slot: Slot) -> (e: InvokeError)
    requires
        i < ds@.len(),
    ensures
        e matches InvokeError::Conversion(c) && c.kind == ConversionErrorKind::UnsupportedType
            && c.slot == slot && c.index == i && c.expected == ds@[i as int].kind() && c.token@.len()
            == 0,
{
    InvokeError::Conversion(
        ConversionError {
            kind: ConversionErrorKind::UnsupportedType,
            slot,
            index: i,
            expected: ds[i].kind(),
            token: String::new(),
        },
    )
}

/// Interface `i` and its function `k` are where a call goes.
pub open spec fn call_target(
    ex: Seq<ExportedInterface>,
    wanted: Option<Seq<char>>,
    fname: Seq<char>,
    i: int,
    k: int,
) -> bool {
    interface_chosen(ex, wanted, i) && function_chosen(ex[i].functions@, fname, k)
}

/// What preparing a call of `f` (function `k` of interface `i`) on the tokens
/// `ts` gives. Shapes are checked first, parameters before results; then the
/// number of tokens; then each token in order. Only when all of these pass is
/// a call made ready.
pub open spec fn prepared(
    f: ExportedFunction,
    ts: Seq<Token>,
    i: int,
    k: int,
    r: Result<PreparedCall, InvokeError>,
) -> bool {
    let ps = f.params@;
    let rs = f.results@;
    if !all_supported(ps) {
        r matches Err(InvokeError::Conversion(e)) && e.kind == ConversionErrorKind::UnsupportedType
            && e.slot == Slot::Param && first_unsupported(ps, e.index as int) && e.expected
            == ps[e.index as int].kind()
    } else if !all_supported(rs) {
        r matches Err(InvokeError::Conversion(e)) && e.kind == ConversionErrorKind::UnsupportedType
            && e.slot == Slot::Result && first_unsupported(rs, e.index as int) && e.expected
            == rs[e.index as int].kind()
    } else if ps.len() != ts.len() {
        r matches Err(InvokeError::ArgumentCount { expected, given }) && expected == ps.len()
            && given == ts.len()
    } else if !all_encode(ps, ts) {
        r matches Err(InvokeError::Conversion(e)) && first_encode_failure(ps, ts, e)
    } else {
        r matches Ok(p) && p.interface == i && p.function == k && encoded_all(ps, ts, p.params@)
            && zeros_of(rs, p.results@)
    }
}

/// Resolves the function to call and builds its arguments and result slots,
/// all or nothing: any failure here means that no call may be made.
pub fn prepare_call(
    exports: &Vec<ExportedInterface>,
    wanted: &Option<String>,
    function: &String,
    tokens: &Vec<Token>,
) -> (r: Result<PreparedCall, InvokeError>)
    ensures
        (forall|i: int| !interface_chosen(exports@, name_view(*wanted), i)) ==> (r matches Err(e)
            && match *wanted {
            None => e is NoExports,
            Some(n) => e matches InvokeError::InterfaceNotFound(m) && m@ == n@,
        }),
        forall|i: int|
            interface_chosen(exports@, name_view(*wanted), i) && (forall|k: int|
                !function_chosen(exports@[i].functions@, function@, k)) ==> (r matches Err(
                InvokeError::FunctionNotFound(m),
            ) && m@ == function@),
        forall|i: int, k: int|
            call_target(exports@, name_view(*wanted), function@, i, k) ==> prepared(
                exports@[i].functions@[k],
                tokens@,
                i,
                k,
                r,
            ),
{
    let i = match select_interface(exports, wanted) {
        Ok(i) => i,
        Err(e) => return Err(e),
    };
    let iface = &exports[i];
    let k = match find_function(iface, function) {
        Ok(k) => k,
        Err(e) => return Err(e),
    };
    let f = &iface.functions[k];
    assert(call_target(exports@, name_view(*wanted), function@, i as int, k as int));
    if let Some(j) = find_unsupported(&f.params) {
        return Err(unsupported_error(&f.params, j, Slot::Param));
    }
    if let Some(j) = find_unsupported(&f.results) {
        return Err(unsupported_error(&f.results, j, Slot::Result));
    }
    let params = match encode_params(&f.params, tokens) {
        Ok(vs) => vs,
        Err(e) => return Err(e),
    };
    let results = match zero_results(&f.results) {
        Ok(vs) => vs,
        Err(e) => return Err(InvokeError::Conversion(e)),
    };
    Ok(PreparedCall { interface: i, function: k, params, results })
}

/// A shape outside the supported set, among the parameters or the results,
/// blocks the call with `UnsupportedType` at the first such position.
pub proof fn lemma_unsupported_blocks_call(
    f: ExportedFunction,
    ts: Seq<Token>,
    i: int,
    k: int,
    r: Result<PreparedCall, InvokeError>,
)
    requires
        prepared(f, ts, i, k, r),
        !all_supported(f.params@) || !all_supported(f.results@),
    ensures
        r matches Err(InvokeError::Conversion(e)) && e.kind == ConversionErrorKind::UnsupportedType
            && (if e.slot == Slot::Param {
            first_unsupported(f.params@, e.index as int)
        } else {
            first_unsupported(f.results@, e.index as int)
        }),
{
}

/// Fewer tokens than declared parameters never yields a call ready to make.
pub proof fn lemma_missing_tokens_block_call(
    f: ExportedFunction,
    ts: Seq<Token>,
    i: int,
    k: int,
    r: Result<PreparedCall, InvokeError>,
)
    requires
        prepared(f, ts, i, k, r),
        ts.len() < f.params@.len(),
    ensures
        r is Err,
{
}

} // verus!
