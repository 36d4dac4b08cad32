//! Builder generation for named-field structs.
//!
//! The library works on an explicit model of the input declaration
//! (`syntax`), reads the per-field `builder(each = "...")` directive
//! (`directive`), sorts each field into one of three shapes (`classify`),
//! and plans the builder type, its setters and its finalizer (`plan`).
//! `slot` states what the generated methods do to one field's slot, and
//! `command` is the builder that the plan gives for a command-line struct,
//! written out with its behaviour proved.
pub mod syntax;
pub mod classify;
pub mod directive;
pub mod plan;
pub mod slot;
pub mod command;

pub use syntax::{
    Attr, AttrArgs, Body, FieldDef, Operand, PathArgs, PathSegment, Span, StructDef, TypeExpr,
    TypePath,
};
pub use classify::{Shape, classify};
pub use directive::{Diagnostic, parse_each};
pub use plan::{Expansion, FieldPlan, GenError, expand};
pub use slot::{push_item, set_slot, take_optional, take_repeated, take_required};
pub use command::{Command, CommandBuilder};
