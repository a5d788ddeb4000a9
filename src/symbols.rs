//! The engine's exported symbols, and the all-or-nothing rule for loading them.
use vstd::prelude::*;

verus! {

/// How many symbols the engine must export.
pub const SYMBOL_COUNT: usize = 7;

/// The names of the symbols the engine must export, in a fixed order.
pub open spec fn required_symbols() -> Seq<Seq<char>> {
    seq![
        "initialize"@,
        "finalize"@,
        "metas"@,
        "yukarin_s_forward"@,
        "yukarin_sa_forward"@,
        "decode_forward"@,
        "last_error_message"@,
    ]
}

/// Why a loaded library cannot serve as the engine.
#[derive(Debug)]
pub enum LoadError {
    /// The library does not export the named symbol.
    MissingSymbol(String),
}

/// The names of the symbols the engine must export, in the order in which
/// `check_symbols` reads its argument.
pub fn required_symbol_names() -> (r: Vec<String>)
    ensures
        r@.len() == SYMBOL_COUNT,
        forall|i: int| 0 <= i < r@.len() ==> r@[i]@ == required_symbols()[i],
{
    let mut r: Vec<String> = Vec::new();
    r.push(String::from_str("initialize"));
    r.push(String::from_str("finalize"));
    r.push(String::from_str("metas"));
    r.push(String::from_str("yukarin_s_forward"));
    r.push(String::from_str("yukarin_sa_forward"));
    r.push(String::from_str("decode_forward"));
    r.push(String::from_str("last_error_message"));
    proof {
        reveal_strlit("initialize");
        reveal_strlit("finalize");
        reveal_strlit("metas");
        reveal_strlit("yukarin_s_forward");
        reveal_strlit("yukarin_sa_forward");
        reveal_strlit("decode_forward");
        reveal_strlit("last_error_message");
    }
    r
}

/// Decides whether a library can serve as the engine, given for each
/// required symbol (in the order of `required_symbols`) whether it was found.
///
/// Resolution is all-or-nothing: the result is `Ok` exactly when every
/// symbol was found, and otherwise names the first one that was not.
pub fn check_symbols(found: &Vec<bool>) -> (r: Result<(), LoadError>)
    requires
        found@.len() == SYMBOL_COUNT,
    ensures
        r is Ok <==> (forall|i: int| 0 <= i < found@.len() ==> found@[i]),
        match r {
            Ok(()) => true,
            Err(LoadError::MissingSymbol(name)) => exists|i: int|
                0 <= i < found@.len() && !found@[i] && name@ == required_symbols()[i]
                    && (forall|j: int| 0 <= j < i ==> found@[j]),
        },
{
    let names = required_symbol_names();
    let mut i: usize = 0;
    while i < found.len()
        invariant
            found@.len() == SYMBOL_COUNT,
            names@.len() == SYMBOL_COUNT,
            forall|k: int| 0 <= k < names@.len() ==> names@[k]@ == required_symbols()[k],
            0 <= i <= found@.len(),
            forall|j: int| 0 <= j < i ==> found@[j],
        decreases found@.len() - i,
    {
        if !found[i] {
            return Err(LoadError::MissingSymbol(names[i].clone()));
        }
        i = i + 1;
    }
    Ok(())
}

} // verus!
