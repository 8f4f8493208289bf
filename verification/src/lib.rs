//! Core of an HTTP request-handling engine: a middleware/handler chain
//! executor with a panic containment boundary, a typed extraction layer over
//! matched path parameters, and the synthesis of API-operation parameter
//! metadata. Each public function carries a contract that pins down its
//! behaviour; the chain executor is specified by a functional interpreter
//! over the handler list.

pub mod table;
pub mod model;
pub mod extract;
pub mod oapi;
pub mod chain;
