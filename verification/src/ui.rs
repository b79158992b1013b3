//! The immediate-mode UI library, as far as the engine core touches it.
//!
//! The core creates the UI context, keeps it, and asks it once a frame
//! whether the UI wants the pointer. Nothing in this crate looks inside
//! these types, and nothing is claimed of what the calls return.

use vstd::prelude::*;

verus! {

/// `egui::Context`, the handle to the UI state. It is carried and handed on;
/// Verus sees nothing inside it.
#[verifier::external_type_specification]
#[verifier::external_body]
pub struct ExUiContext(egui::Context);

/// `egui::Ui`, a region of the screen that widgets are put into. It only
/// passes through the signature of [`crate::engine::GameLoop::performance_metrics`].
#[verifier::external_type_specification]
#[verifier::external_body]
pub struct ExUi(egui::Ui);

/// `egui::Context::default`: a fresh UI context. It returns for every call;
/// nothing is claimed of the context it returns.
pub assume_specification[ <egui::Context as Default>::default ]() -> (ctx: egui::Context);

/// `egui::Context::wants_pointer_input`: whether the UI is interested in the
/// pointer right now, because the pointer is over a UI area or a widget is
/// being dragged. The answer depends on what the user does, so nothing is
/// claimed of it.
pub assume_specification[ egui::Context::wants_pointer_input ](ctx: &egui::Context) -> (wanted:
    bool);

} // verus!
