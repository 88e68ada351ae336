//! The battlefield game of the console: its weapons, the states of the
//! buildings that stand for topics, and the grid the buildings are laid
//! out on.
use vstd::prelude::*;

verus! {

/// A weapon that fires a chaos action at a building.
#[derive(Debug, Clone, Copy, PartialEq, Eq, Structural)]
pub enum Weapon {
    Crossbow,
    Trebuchet,
}

impl Weapon {
    /// The weapon's name.
    pub fn label(self) -> (r: &'static str)
        ensures
            self == Weapon::Crossbow ==> r@ == "Crossbow"@,
            self == Weapon::Trebuchet ==> r@ == "Trebuchet"@,
    {
        match self {
            Weapon::Crossbow => "Crossbow",
            Weapon::Trebuchet => "Trebuchet",
        }
    }

    /// The chaos action the weapon fires.
    pub fn action_label(self) -> (r: &'static str)
        ensures
            self == Weapon::Crossbow ==> r@ == "Poison Pills"@,
            self == Weapon::Trebuchet ==> r@ == "Delete Topic"@,
    {
        match self {
            Weapon::Crossbow => "Poison Pills",
            Weapon::Trebuchet => "Delete Topic",
        }
    }

    /// The key that selects the weapon.
    pub fn keybind(self) -> (r: &'static str)
        ensures
            self == Weapon::Crossbow ==> r@ == "1"@,
            self == Weapon::Trebuchet ==> r@ == "2"@,
    {
        match self {
            Weapon::Crossbow => "1",
            Weapon::Trebuchet => "2",
        }
    }

    /// The weapon's slot on the action bar.
    pub fn slot_index(self) -> (r: usize)
        ensures
            r == (if self == Weapon::Crossbow {
                0usize
            } else {
                1usize
            }),
    {
        match self {
            Weapon::Crossbow => 0,
            Weapon::Trebuchet => 1,
        }
    }

    /// The colour of the weapon's projectile.
    pub fn projectile_color(self) -> (r: &'static str)
        ensures
            self == Weapon::Crossbow ==> r@ == "#22c55e"@,
            self == Weapon::Trebuchet ==> r@ == "#ef4444"@,
    {
        match self {
            Weapon::Crossbow => "#22c55e",
            Weapon::Trebuchet => "#ef4444",
        }
    }
}

/// Each weapon has its own slot.
pub proof fn law_weapon_slots_distinct(a: Weapon, b: Weapon)
    ensures
        a != b ==> (if a == Weapon::Crossbow {
            0usize
        } else {
            1usize
        }) != (if b == Weapon::Crossbow {
            0usize
        } else {
            1usize
        }),
{
}

/// How a building looks.
#[derive(Debug, Clone)]
pub enum BuildingVisual {
    Healthy,
    Damaged { chaos_label: String },
    Destroyed,
}

/// What the player is doing.
#[derive(Debug, Clone, Copy, PartialEq, Eq, Structural)]
pub enum Phase {
    Idle,
    Aiming { weapon: Weapon },
    Firing,
}

/// The place of a building on the grid: its column, its row (counted up
/// from the ground) and how many buildings share its row.
#[derive(Debug, Clone, Copy, PartialEq, Eq, Structural)]
pub struct GridCell {
    pub col: usize,
    pub row: usize,
    pub cols_in_row: usize,
}

/// The number of columns used for `count` buildings when `max_cols` fit
/// across: at least one, at most `count`.
pub open spec fn grid_columns(count: nat, max_cols: nat) -> nat {
    if max_cols < 1 {
        1
    } else if max_cols > count {
        count
    } else {
        max_cols
    }
}

/// How many buildings share the row of building `i` of `count` on a grid
/// `cols` wide, filled row by row; the last row holds what is left over.
pub open spec fn row_width(i: nat, count: nat, cols: nat) -> nat
    recommends
        cols > 0,
{
    let last_row = (count - 1) / (cols as int);
    let row = i / cols;
    if row == last_row && count - row * cols < cols {
        (count - row * cols) as nat
    } else {
        cols
    }
}

/// Building `i` of `count` is in column `i % cols` and row `i / cols`
/// of a grid `cols` wide.
pub open spec fn cell_of(c: GridCell, i: nat, count: nat, cols: nat) -> bool {
    &&& c.col == i % cols
    &&& c.row == i / cols
    &&& c.cols_in_row == row_width(i, count, cols)
}

/// The grid cells of `count` buildings, in order, when `max_cols` fit
/// across.
pub fn grid_cells(count: usize, max_cols: usize) -> (r: Vec<GridCell>)
    ensures
        r@.len() == count,
        count > 0 ==> forall|i: int|
            0 <= i < count ==> cell_of(
                #[trigger] r@[i],
                i as nat,
                count as nat,
                grid_columns(count as nat, max_cols as nat),
            ),
{
    let mut r: Vec<GridCell> = Vec::new();
    if count == 0 {
        return r;
    }
    let cols: usize = if max_cols < 1 {
        1
    } else if max_cols > count {
        count
    } else {
        max_cols
    };
    let rows: usize = (count - 1) / cols + 1;
    let mut i: usize = 0;
    while i < count
        invariant
            0 < cols <= count,
            cols == grid_columns(count as nat, max_cols as nat),
            rows == (count - 1) / (cols as int) + 1,
            i <= count,
            r@.len() == i,
            forall|j: int|
                0 <= j < i ==> cell_of(#[trigger] r@[j], j as nat, count as nat, cols as nat),
        decreases count - i,
    {
        let col: usize = i % cols;
        let row: usize = i / cols;
        assert(row * cols <= i) by (nonlinear_arith)
            requires
                row == i / cols,
                cols > 0,
        ;
        let cols_in_row: usize = if row == rows - 1 {
            let remaining: usize = count - row * cols;
            if remaining < cols {
                remaining
            } else {
                cols
            }
        } else {
            cols
        };
        r.push(GridCell { col, row, cols_in_row });
        i = i + 1;
    }
    r
}

/// Different buildings get different cells, and each building lies
/// within its row.
pub proof fn law_grid_cells_distinct(count: nat, cols: nat, i: nat, j: nat)
    requires
        0 < cols <= count,
        i < count,
        j < count,
        i != j,
    ensures
        i % cols != j % cols || i / cols != j / cols,
        i % cols < row_width(i, count, cols),
{
    vstd::arithmetic::div_mod::lemma_fundamental_div_mod(i as int, cols as int);
    vstd::arithmetic::div_mod::lemma_fundamental_div_mod(j as int, cols as int);
    assert(i % cols < cols) by {
        vstd::arithmetic::div_mod::lemma_mod_bound(i as int, cols as int);
    }
    let row = i / cols;
    if row == (count - 1) / (cols as int) && count - row * cols < cols {
        assert(i % cols < count - row * cols) by (nonlinear_arith)
            requires
                i == cols * (i / cols) + i % cols,
                row == i / cols,
                i < count,
        ;
    }
}

} // verus!
