//! TypeScript language extractor: the JavaScript rules, and interfaces and
//! type aliases besides.

use vstd::prelude::*;

verus! {

pub struct TypeScriptExtractor;

} // verus!
