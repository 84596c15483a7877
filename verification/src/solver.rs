//! The root of the layout: the size of the window as two variables of the
//! constraint solver.
//!
//! Every other constraint of the interface is derived from the width and
//! the height of the window. The two are registered with the solver once, as
//! edit variables; on a resize new values are suggested for them and the
//! solver is kept.

use vstd::prelude::*;
use cassowary::{Solver, Variable};
use crate::scalar::{FloatBits, LayoutSize};

verus! {

/// `cassowary::Variable`, a handle whose inside is not looked at.
#[verifier::external_type_specification]
#[verifier::external_body]
pub struct ExVariable(cassowary::Variable);

/// `cassowary::Solver`; of its state only the set of edit variables is
/// spoken of.
#[verifier::external_type_specification]
#[verifier::external_body]
pub struct ExSolver(cassowary::Solver);

/// The variables that are registered with a solver as edit variables.
///
/// Two variables are the same here exactly if the solver takes them for the
/// same: a copy of a variable is that variable.
pub uninterp spec fn solver_edit_variables(solver: Solver) -> Set<Variable>;

/// Why a variable could not be registered as an edit variable.
#[derive(Clone, Copy, Debug, PartialEq, Eq, Structural)]
pub enum EditVariableError {
    /// The variable is registered already.
    DuplicateEditVariable,
    /// The strength was the one reserved for constraints that must hold.
    BadRequiredStrength,
}

/// Whether every constraint that a solver holds was put there by the
/// registration of an edit variable.
///
/// A solver starts out so, and registering an edit variable keeps it so. Such
/// a solver accepts the constraint of a further edit variable: the objective
/// holds nothing but the error terms of the edit variables, each with a
/// positive weight, so there is nothing left to optimise.
pub uninterp spec fn solver_holds_edit_constraints_only(solver: Solver) -> bool;

/// Calls `cassowary::Variable::new`.
///
/// The variable that comes back is new: it differs from the one given, which
/// was made before it. Variables come from this call alone, each with the
/// next number of a counter.
#[verifier::external_body]
fn new_variable(beside: Option<Variable>) -> (v: Variable)
    ensures
        beside matches Some(other) ==> v != other,
{
    Variable::new()
}

/// Calls `cassowary::Solver::new`: the solver that comes back has no edit
/// variable and no constraint.
#[verifier::external_body]
fn new_solver() -> (solver: Solver)
    ensures
        solver_edit_variables(solver) == Set::<Variable>::empty(),
        solver_holds_edit_constraints_only(solver),
{
    Solver::new()
}

/// Calls `cassowary::Solver::add_edit_variable` with the strength
/// `cassowary::strength::STRONG`.
///
/// The call is refused exactly if the variable is registered already, and
/// then leaves the solver as it was; the other refusal is kept for the
/// reserved strength alone, which `STRONG` is not. Otherwise the variable is
/// registered beside those that were, with one constraint of its own.
///
/// Inside, the crate adds that constraint and takes for granted that the
/// solver accepts it. That is so for a solver whose constraints all belong to
/// edit variables, and only such a solver is let in.
#[verifier::external_body]
fn add_strong_edit_variable(solver: &mut Solver, v: Variable) -> (r: Result<
    (),
    EditVariableError,
>)
    requires
        solver_holds_edit_constraints_only(*old(solver)),
    ensures
        r is Err <==> solver_edit_variables(*old(solver)).contains(v),
        r is Err ==> r->Err_0 == EditVariableError::DuplicateEditVariable,
        r is Err ==> solver_edit_variables(*final(solver)) == solver_edit_variables(*old(solver)),
        r is Ok ==> solver_edit_variables(*final(solver)) == solver_edit_variables(
            *old(solver),
        ).insert(v),
        solver_holds_edit_constraints_only(*final(solver)),
{
    match solver.add_edit_variable(v, cassowary::strength::STRONG) {
        Ok(()) => Ok(()),
        Err(cassowary::AddEditVariableError::DuplicateEditVariable) => Err(
            EditVariableError::DuplicateEditVariable,
        ),
        Err(cassowary::AddEditVariableError::BadRequiredStrength) => Err(
            EditVariableError::BadRequiredStrength,
        ),
    }
}

/// The size of the window in layout units, and the two solver variables
/// that stand for its width and its height.
#[derive(Clone, Copy, Debug, PartialEq)]
pub struct WindowDimensions {
    pub layout_size: LayoutSize,
    pub width_var: Variable,
    pub height_var: Variable,
}

impl WindowDimensions {
    /// Puts a size and two variables together.
    pub fn from_parts(layout_size: LayoutSize, width_var: Variable, height_var: Variable) -> (d:
        Self)
        ensures
            d.layout_size == layout_size,
            d.width_var == width_var,
            d.height_var == height_var,
    {
        WindowDimensions { layout_size, width_var, height_var }
    }

    /// The given size, with a variable drawn anew for each of width and
    /// height. The two variables differ.
    pub fn new_from_layout_size(layout_size: LayoutSize) -> (d: Self)
        ensures
            d.layout_size == layout_size,
            d.width_var != d.height_var,
    {
        let width_var = new_variable(None);
        let height_var = new_variable(Some(width_var));
        Self::from_parts(layout_size, width_var, height_var)
    }

    /// The width in layout units.
    pub fn width(&self) -> (w: FloatBits)
        ensures
            w == self.layout_size.width,
    {
        self.layout_size.width
    }

    /// The height in layout units.
    pub fn height(&self) -> (h: FloatBits)
        ensures
            h == self.layout_size.height,
    {
        self.layout_size.height
    }

    /// The values to suggest to the solver so that its two variables agree
    /// with the size: the width for the width variable, then the height for
    /// the height variable.
    pub fn suggestions(&self) -> (s: ((Variable, FloatBits), (Variable, FloatBits)))
        ensures
            s.0 == (self.width_var, self.layout_size.width),
            s.1 == (self.height_var, self.layout_size.height),
    {
        ((self.width_var, self.layout_size.width), (self.height_var, self.layout_size.height))
    }
}

/// The variables a solver knows once the two of `dimensions` were offered
/// to one that knew `known`: the width is added unless it was there, and
/// only then is the height added, unless it was there or is the width.
pub open spec fn registered(known: Set<Variable>, dimensions: WindowDimensions) -> Set<Variable> {
    if known.contains(dimensions.width_var) {
        known
    } else if known.contains(dimensions.height_var) || dimensions.height_var
        == dimensions.width_var {
        known.insert(dimensions.width_var)
    } else {
        known.insert(dimensions.width_var).insert(dimensions.height_var)
    }
}

/// Whether both variables of `dimensions` can be registered with a solver
/// that knows `known`.
pub open spec fn registrable(known: Set<Variable>, dimensions: WindowDimensions) -> bool {
    &&& !known.contains(dimensions.width_var)
    &&& !known.contains(dimensions.height_var)
    &&& dimensions.width_var != dimensions.height_var
}

/// Registers width and height, in this order, with a solver whose
/// constraints all belong to edit variables.
fn register(solver: &mut Solver, dimensions: &WindowDimensions) -> (r: Result<
    (),
    EditVariableError,
>)
    requires
        solver_holds_edit_constraints_only(*old(solver)),
    ensures
        r is Ok <==> registrable(solver_edit_variables(*old(solver)), *dimensions),
        r is Err ==> r->Err_0 == EditVariableError::DuplicateEditVariable,
        solver_edit_variables(*final(solver)) == registered(
            solver_edit_variables(*old(solver)),
            *dimensions,
        ),
        solver_holds_edit_constraints_only(*final(solver)),
{
    match add_strong_edit_variable(solver, dimensions.width_var) {
        Ok(()) => {},
        Err(e) => {
            return Err(e);
        },
    }
    add_strong_edit_variable(solver, dimensions.height_var)
}

/// The solver of one window, while its root variables are registered.
///
/// The solver inside is made here and reached through these functions
/// alone, so all its constraints belong to edit variables. It is handed out
/// for good by [`UiSolver::into_solver`].
pub struct UiSolver {
    solver: Solver,
}

impl UiSolver {
    /// What holds of every value of this type that the functions below
    /// hand out: all constraints of the solver inside belong to edit
    /// variables.
    pub closed spec fn well_formed(self) -> bool {
        solver_holds_edit_constraints_only(self.solver)
    }

    /// The edit variables of the solver.
    pub closed spec fn edit_variables(self) -> Set<Variable> {
        solver_edit_variables(self.solver)
    }

    /// A solver whose only edit variables are the width and the height of
    /// the window.
    ///
    /// Fails exactly if `dimensions` holds one variable twice.
    pub fn new(dimensions: &WindowDimensions) -> (r: Result<Self, EditVariableError>)
        ensures
            r is Ok <==> dimensions.width_var != dimensions.height_var,
            r is Err ==> r->Err_0 == EditVariableError::DuplicateEditVariable,
            r is Ok ==> r->Ok_0.edit_variables() == Set::<Variable>::empty().insert(
                dimensions.width_var,
            ).insert(dimensions.height_var),
            r is Ok ==> r->Ok_0.well_formed(),
    {
        let mut solver = new_solver();
        match register(&mut solver, dimensions) {
            Ok(()) => Ok(UiSolver { solver }),
            Err(e) => Err(e),
        }
    }

    /// Registers width and height, in this order, as edit variables of
    /// strong strength.
    ///
    /// Succeeds exactly if neither variable is registered yet and the two
    /// differ. Stops at the first variable that is refused; the width stays
    /// registered if it was the height that was refused.
    pub fn register_window_dimensions(&mut self, dimensions: &WindowDimensions) -> (r: Result<
        (),
        EditVariableError,
    >)
        requires
            old(self).well_formed(),
        ensures
            r is Ok <==> registrable(old(self).edit_variables(), *dimensions),
            r is Err ==> r->Err_0 == EditVariableError::DuplicateEditVariable,
            final(self).edit_variables() == registered(old(self).edit_variables(), *dimensions),
            final(self).well_formed(),
    {
        register(&mut self.solver, dimensions)
    }

    /// Hands the solver out, with the edit variables it has.
    pub fn into_solver(self) -> (solver: Solver)
        ensures
            solver_edit_variables(solver) == self.edit_variables(),
    {
        self.solver
    }
}

} // verus!
