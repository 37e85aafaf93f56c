use vstd::prelude::*;

verus! {

/// One real unit in the library's fixed-point scale: every real-valued quantity
/// (mass, length, time, velocity, constants) is held as a whole number of millionths.
pub const UNIT: i64 = 1_000_000;

/// Largest magnitude accepted for a scalar parameter (mass, border, timestep,
/// gravity constant, maximal velocity, bucket size), in millionths.
pub const PARAMETER_LIMIT: i64 = 0x10_0000_0000;

/// How the program runs: with a rendered, interactive window, or headless over the
/// whole parameter space with persisted results.
#[derive(Debug, Clone, Copy, PartialEq, Eq, Structural)]
pub enum Mode {
    Default,
    Search,
}

/// The policy between two particle kinds.
#[derive(PartialEq, Eq, Structural, Clone, Copy, Debug)]
pub enum InteractionType {
    Attraction,
    Repulsion,
    Neutral,
}

pub open spec fn interaction_label(t: InteractionType) -> Seq<char> {
    match t {
        InteractionType::Attraction => "Attraction"@,
        InteractionType::Repulsion => "Repulsion"@,
        InteractionType::Neutral => "Neutral"@,
    }
}

impl InteractionType {
    /// The variant's name, as it is stored in the interactions table.
    pub fn label(&self) -> (r: String)
        ensures
            r@ == interaction_label(*self),
    {
        match self {
            InteractionType::Attraction => "Attraction".to_owned(),
            InteractionType::Repulsion => "Repulsion".to_owned(),
            InteractionType::Neutral => "Neutral".to_owned(),
        }
    }
}

/// One particle kind: its dense index, its mass, and the identifier that the store
/// assigned to it once it was persisted.
#[derive(Debug, Clone)]
pub struct ParticleParameters {
    pub id: Option<usize>,
    pub mass: i64,
    pub index: usize,
}

/// The constants of one run. Real-valued fields are in millionths (see `UNIT`).
#[derive(Debug, Clone)]
pub struct Parameters {
    pub amount: usize,
    pub border: i64,
    pub timestep: i64,
    pub gravity_constant: i64,
    pub friction: i64,
    pub particle_parameters: Vec<ParticleParameters>,
    pub interactions: Vec<InteractionType>,
    pub max_velocity: i64,
    pub bucket_size: i64,
}

/// Number of entries of the packed symmetric matrix over `k` kinds.
pub open spec fn triangle(k: int) -> int {
    k * (k + 1) / 2
}

/// Flat index of the unordered pair `{i, j}`, `i <= j`, in the row-major upper
/// triangle (diagonal included) of a `k` by `k` matrix.
pub open spec fn packed_index(k: int, i: int, j: int) -> int {
    i * (2 * k - i + 1) / 2 + (j - i)
}

/// Index of the first entry of row `i`: the rows before it hold `k`, `k - 1`, ... entries.
pub open spec fn row_start(k: int, i: int) -> int
    decreases i,
{
    if i <= 0 {
        0
    } else {
        row_start(k, i - 1) + (k - (i - 1))
    }
}

/// Some unordered pair over `k` kinds is packed at index `n`.
pub open spec fn slot_is_packed(k: int, n: int) -> bool {
    exists|i: int, j: int| 0 <= i <= j < k && #[trigger] packed_index(k, i, j) == n
}

pub open spec fn error_message() -> Seq<char> {
    "Index out of bounds"@
}

impl Parameters {
    pub open spec fn kinds(&self) -> int {
        self.particle_parameters@.len() as int
    }

    /// The interaction table has one entry per unordered pair of kinds.
    pub open spec fn interactions_sized(&self) -> bool {
        self.interactions@.len() == triangle(self.kinds())
    }

    /// The scalar parameters lie in the ranges the integrator is defined on.
    pub open spec fn scalars_in_range(&self) -> bool {
        &&& 0 <= self.border <= PARAMETER_LIMIT
        &&& 0 <= self.timestep <= PARAMETER_LIMIT
        &&& 0 <= self.gravity_constant <= PARAMETER_LIMIT
        &&& 0 <= self.friction <= 2 * UNIT
        &&& 0 <= self.max_velocity <= PARAMETER_LIMIT
        &&& 0 < self.bucket_size <= PARAMETER_LIMIT
        &&& forall|n: int|
            0 <= n < self.kinds() ==> 0 < #[trigger] self.particle_parameters@[n].mass
                <= PARAMETER_LIMIT
    }

    pub open spec fn well_formed(&self) -> bool {
        self.interactions_sized() && self.scalars_in_range()
    }

    /// The policy between kinds `i` and `j`, read from the packed table.
    pub open spec fn interaction(&self, i: int, j: int) -> InteractionType {
        if i <= j {
            self.interactions@[packed_index(self.kinds(), i, j)]
        } else {
            self.interactions@[packed_index(self.kinds(), j, i)]
        }
    }

    /// Returns the interaction type between two particle kinds given their indices,
    /// read from the flat symmetric triangle of the interactions matrix.
    ///
    /// Example:
    ///                     Index 0 1 2
    ///                       0   3 4 5
    ///  3 4 5 6 7 8  --->    1   4 6 7
    ///                       2   5 7 8
    pub fn interaction_by_indices(&self, i: usize, j: usize) -> (r: Result<InteractionType, String>)
        requires
            self.interactions_sized(),
        ensures
            r is Ok <==> (i < self.kinds() && j < self.kinds()),
            r is Ok ==> r->Ok_0 == self.interaction(i as int, j as int),
            r is Err ==> r->Err_0@ == error_message(),
    {
        let k = self.particle_parameters.len();
        let table_len = self.interactions.len();
        if i >= k || j >= k {
            return Err("Index out of bounds".to_owned());
        }
        let (a, b) = if i > j {
            (j, i)
        } else {
            (i, j)
        };
        proof {
            lemma_kinds_small(k as int, table_len as int);
            lemma_packed_index_in_range(k as int, a as int, b as int);
        }
        let wide_k = k as u128;
        let wide_a = a as u128;
        assert(wide_a * (2 * wide_k - wide_a + 1) <= 0x40_0000_0000_0000_0000) by (nonlinear_arith)
            requires
                wide_a < wide_k,
                wide_k < 0x2_0000_0000,
        ;
        let index = (wide_a * (2 * wide_k - wide_a + 1)) / 2 + (b - a) as u128;
        Ok(self.interactions[index as usize])
    }

    /// The kind whose dense index is `index`, if there is one.
    pub fn particle_parameters_by_index(&self, index: usize) -> (r: Option<&ParticleParameters>)
        ensures
            r is Some <==> exists|n: int|
                0 <= n < self.kinds() && #[trigger] self.particle_parameters@[n].index == index,
            r is Some ==> exists|n: int|
                {
                    &&& 0 <= n < self.kinds()
                    &&& #[trigger] self.particle_parameters@[n] == *r->Some_0
                    &&& r->Some_0.index == index
                    &&& forall|m: int|
                        0 <= m < n ==> #[trigger] self.particle_parameters@[m].index != index
                },
    {
        let mut n: usize = 0;
        while n < self.particle_parameters.len()
            invariant
                n <= self.particle_parameters@.len(),
                forall|m: int| 0 <= m < n ==> #[trigger] self.particle_parameters@[m].index != index,
            decreases self.particle_parameters@.len() - n,
        {
            if self.particle_parameters[n].index == index {
                let found = &self.particle_parameters[n];
                assert(self.particle_parameters@[n as int] == *found);
                return Some(found);
            }
            n = n + 1;
        }
        None
    }
}

/// The values that the parameter space takes, one list per scalar, in millionths
/// where the quantity is real-valued.
pub open spec fn amounts() -> Seq<int> {
    seq![10int, 20, 30, 100, 500, 1000]
}

pub open spec fn borders() -> Seq<int> {
    seq![200_000_000int, 400_000_000, 600_000_000, 2_000_000_000]
}

pub open spec fn frictions() -> Seq<int> {
    seq![0int, 5_000, 10_000, 2_000_000]
}

pub open spec fn timesteps() -> Seq<int> {
    seq![200int, 400, 600]
}

pub open spec fn gravity_constants() -> Seq<int> {
    seq![500_000int, 1_000_000, 2_000_000, 3_000_000]
}

pub open spec fn max_velocities() -> Seq<int> {
    seq![20_000_000_000int, 40_000_000_000, 60_000_000_000]
}

pub open spec fn bucket_sizes() -> Seq<int> {
    seq![2_000_000int, 5_000_000, 10_000_000, 20_000_000, 30_000_000]
}

/// Number of points of the parameter space: the product of the lists' lengths.
pub const PARAMETER_SPACE_SIZE: usize = 17280;

/// The kinds of the template that every point of the parameter space uses.
pub open spec fn template_kinds() -> Seq<ParticleParameters> {
    seq![
        ParticleParameters { id: None, mass: 3_000_000, index: 0 },
        ParticleParameters { id: None, mass: 250_000_000, index: 1 },
        ParticleParameters { id: None, mass: 1_000_000_000, index: 2 },
    ]
}

/// The packed interactions of the template: 0-0 repel, 0-1 attract, 0-2 attract,
/// 1-1 repel, 1-2 attract, 2-2 neutral.
pub open spec fn template_interactions() -> Seq<InteractionType> {
    seq![
        InteractionType::Repulsion,
        InteractionType::Attraction,
        InteractionType::Attraction,
        InteractionType::Repulsion,
        InteractionType::Attraction,
        InteractionType::Neutral,
    ]
}

/// Point `n` of the parameter space, the lists nested with `amounts` outermost and
/// `bucket_sizes` innermost, each inner list running through all its values before the
/// next outer value comes.
pub open spec fn is_space_point(p: Parameters, n: int) -> bool {
    &&& p.amount == amounts()[n / 2880]
    &&& p.border == borders()[(n / 720) % 4]
    &&& p.friction == frictions()[(n / 180) % 4]
    &&& p.timestep == timesteps()[(n / 60) % 3]
    &&& p.gravity_constant == gravity_constants()[(n / 15) % 4]
    &&& p.max_velocity == max_velocities()[(n / 5) % 3]
    &&& p.bucket_size == bucket_sizes()[n % 5]
    &&& p.particle_parameters@ == template_kinds()
    &&& p.interactions@ == template_interactions()
}

fn template_kinds_exec() -> (r: Vec<ParticleParameters>)
    ensures
        r@ == template_kinds(),
{
    let mut r: Vec<ParticleParameters> = Vec::new();
    r.push(ParticleParameters { id: None, mass: 3 * UNIT, index: 0 });
    r.push(ParticleParameters { id: None, mass: 250 * UNIT, index: 1 });
    r.push(ParticleParameters { id: None, mass: 1000 * UNIT, index: 2 });
    assert(r@ == template_kinds());
    r
}

fn template_interactions_exec() -> (r: Vec<InteractionType>)
    ensures
        r@ == template_interactions(),
{
    let mut r: Vec<InteractionType> = Vec::new();
    r.push(InteractionType::Repulsion);
    r.push(InteractionType::Attraction);
    r.push(InteractionType::Attraction);
    r.push(InteractionType::Repulsion);
    r.push(InteractionType::Attraction);
    r.push(InteractionType::Neutral);
    assert(r@ == template_interactions());
    r
}

fn amounts_at(d: usize) -> (r: usize)
    requires
        d < 6,
    ensures
        r == amounts()[d as int],
{
    if d == 0 {
        10
    } else if d == 1 {
        20
    } else if d == 2 {
        30
    } else if d == 3 {
        100
    } else if d == 4 {
        500
    } else {
        1000
    }
}

fn borders_at(d: usize) -> (r: i64)
    requires
        d < 4,
    ensures
        r == borders()[d as int],
{
    if d == 0 {
        200_000_000
    } else if d == 1 {
        400_000_000
    } else if d == 2 {
        600_000_000
    } else {
        2_000_000_000
    }
}

fn frictions_at(d: usize) -> (r: i64)
    requires
        d < 4,
    ensures
        r == frictions()[d as int],
{
    if d == 0 {
        0
    } else if d == 1 {
        5_000
    } else if d == 2 {
        10_000
    } else {
        2_000_000
    }
}

fn timesteps_at(d: usize) -> (r: i64)
    requires
        d < 3,
    ensures
        r == timesteps()[d as int],
{
    if d == 0 {
        200
    } else if d == 1 {
        400
    } else {
        600
    }
}

fn gravity_constants_at(d: usize) -> (r: i64)
    requires
        d < 4,
    ensures
        r == gravity_constants()[d as int],
{
    if d == 0 {
        500_000
    } else if d == 1 {
        1_000_000
    } else if d == 2 {
        2_000_000
    } else {
        3_000_000
    }
}

fn max_velocities_at(d: usize) -> (r: i64)
    requires
        d < 3,
    ensures
        r == max_velocities()[d as int],
{
    if d == 0 {
        20_000_000_000
    } else if d == 1 {
        40_000_000_000
    } else {
        60_000_000_000
    }
}

fn bucket_sizes_at(d: usize) -> (r: i64)
    requires
        d < 5,
    ensures
        r == bucket_sizes()[d as int],
{
    if d == 0 {
        2_000_000
    } else if d == 1 {
        5_000_000
    } else if d == 2 {
        10_000_000
    } else if d == 3 {
        20_000_000
    } else {
        30_000_000
    }
}

impl Default for Parameters {
    /// The canonical parameters of the interactive mode.
    fn default() -> (r: Self)
        ensures
            r.amount == 10,
            r.border == 200 * UNIT,
            r.friction == 5_000,
            r.timestep == 200,
            r.gravity_constant == UNIT,
            r.max_velocity == 20_000 * UNIT,
            r.bucket_size == 10 * UNIT,
            r.particle_parameters@ == template_kinds(),
            r.interactions@ == template_interactions(),
            r.well_formed(),
    {
        let r = Parameters {
            amount: 10,
            border: 200 * UNIT,
            friction: 5_000,
            timestep: 200,
            gravity_constant: UNIT,
            particle_parameters: template_kinds_exec(),
            interactions: template_interactions_exec(),
            max_velocity: 20_000 * UNIT,
            bucket_size: 10 * UNIT,
        };
        assert(r.kinds() == 3);
        r
    }
}

impl Parameters {
    /// Every combination of the value lists with the three-kind template, in the order
    /// of nested loops with the amount outermost and the bucket size innermost.
    pub fn parameter_space() -> (r: Vec<Parameters>)
        ensures
            r@.len() == PARAMETER_SPACE_SIZE,
            forall|n: int| 0 <= n < PARAMETER_SPACE_SIZE ==> is_space_point(#[trigger] r@[n], n),
            forall|n: int| 0 <= n < PARAMETER_SPACE_SIZE ==> (#[trigger] r@[n]).well_formed(),
    {
        let mut space: Vec<Parameters> = Vec::new();
        let mut n: usize = 0;
        while n < PARAMETER_SPACE_SIZE
            invariant
                n <= PARAMETER_SPACE_SIZE,
                space@.len() == n,
                forall|m: int| 0 <= m < n ==> is_space_point(#[trigger] space@[m], m),
                forall|m: int| 0 <= m < n ==> (#[trigger] space@[m]).well_formed(),
            decreases PARAMETER_SPACE_SIZE - n,
        {
            let point = Parameters {
                amount: amounts_at(n / 2880),
                border: borders_at((n / 720) % 4),
                friction: frictions_at((n / 180) % 4),
                timestep: timesteps_at((n / 60) % 3),
                gravity_constant: gravity_constants_at((n / 15) % 4),
                max_velocity: max_velocities_at((n / 5) % 3),
                bucket_size: bucket_sizes_at(n % 5),
                particle_parameters: template_kinds_exec(),
                interactions: template_interactions_exec(),
            };
            proof {
                assert(point.kinds() == 3);
                assert(is_space_point(point, n as int));
            }
            space.push(point);
            n = n + 1;
        }
        space
    }
}

/// Each kind sits at the position of the list that its index names.
pub open spec fn kinds_dense(p: Parameters) -> bool {
    forall|n: int| 0 <= n < p.kinds() ==> (#[trigger] p.particle_parameters@[n]).index == n
}

impl Parameters {
    /// Whether the parameters are well formed and their kinds are densely indexed.
    pub fn is_valid(&self) -> (r: bool)
        ensures
            r == (self.well_formed() && kinds_dense(*self)),
    {
        let k = self.particle_parameters.len();
        let len = self.interactions.len();
        if k as u64 >= 0x2_0000_0000 {
            proof {
                assert(k * (k + 1) >= 0x2_0000_0000 * 0x2_0000_0001) by (nonlinear_arith)
                    requires
                        k >= 0x2_0000_0000,
                ;
            }
            return false;
        }
        assert((k as u128) * (k as u128 + 1) <= 0x4_0000_0000_0000_0000 + 0x2_0000_0000) by (nonlinear_arith)
            requires
                k < 0x2_0000_0000,
        ;
        if (k as u128) * (k as u128 + 1) / 2 != len as u128 {
            return false;
        }
        let in_range = 0 <= self.border && self.border <= PARAMETER_LIMIT && 0 <= self.timestep
            && self.timestep <= PARAMETER_LIMIT && 0 <= self.gravity_constant
            && self.gravity_constant <= PARAMETER_LIMIT && 0 <= self.friction && self.friction <= 2
            * UNIT && 0 <= self.max_velocity && self.max_velocity <= PARAMETER_LIMIT && 0
            < self.bucket_size && self.bucket_size <= PARAMETER_LIMIT;
        if !in_range {
            return false;
        }
        let mut n: usize = 0;
        while n < k
            invariant
                k == self.kinds(),
                n <= k,
                forall|m: int|
                    0 <= m < n ==> 0 < #[trigger] self.particle_parameters@[m].mass <= PARAMETER_LIMIT,
                forall|m: int| 0 <= m < n ==> (#[trigger] self.particle_parameters@[m]).index == m,
            decreases k - n,
        {
            let kind = &self.particle_parameters[n];
            if kind.mass <= 0 || kind.mass > PARAMETER_LIMIT || kind.index != n {
                return false;
            }
            n = n + 1;
        }
        true
    }
}

/// A table of `k * (k + 1) / 2` entries that fits in memory has fewer than `2^33` rows.
pub(crate) proof fn lemma_kinds_small(k: int, len: int)
    requires
        0 <= k,
        len == triangle(k),
        len <= usize::MAX,
    ensures
        k < 0x2_0000_0000,
{
    if k >= 0x2_0000_0000 {
        assert(k * (k + 1) >= 0x2_0000_0000 * 0x2_0000_0001) by (nonlinear_arith)
            requires
                k >= 0x2_0000_0000,
        ;
    }
}

proof fn lemma_row_start_formula(k: int, i: int)
    requires
        0 <= i,
    ensures
        row_start(k, i) == i * (2 * k - i + 1) / 2,
        i * (2 * k - i + 1) % 2 == 0,
    decreases i,
{
    if i > 0 {
        lemma_row_start_formula(k, i - 1);
        assert(i * (2 * k - i + 1) == (i - 1) * (2 * k - (i - 1) + 1) + 2 * (k - (i - 1)))
            by (nonlinear_arith);
    }
}

/// The rows of the packed table end at its length.
pub(crate) proof fn lemma_rows_fill_table(k: int)
    requires
        0 <= k,
    ensures
        row_start(k, k) == triangle(k),
{
    lemma_row_start_formula(k, k);
    assert(k * (2 * k - k + 1) == k * (k + 1)) by (nonlinear_arith);
}

pub(crate) proof fn lemma_packed_is_row_offset(k: int, i: int, j: int)
    requires
        0 <= i,
    ensures
        packed_index(k, i, j) == row_start(k, i) + (j - i),
{
    lemma_row_start_formula(k, i);
}

pub(crate) proof fn lemma_row_start_monotone(k: int, i: int, j: int)
    requires
        0 <= i <= j <= k,
    ensures
        row_start(k, i) + (j - i) <= row_start(k, j),
    decreases j - i,
{
    if i < j {
        lemma_row_start_monotone(k, i, j - 1);
    }
}

pub(crate) proof fn lemma_packed_index_in_range(k: int, i: int, j: int)
    requires
        0 <= i <= j < k,
    ensures
        0 <= packed_index(k, i, j) < triangle(k),
        0 <= i * (2 * k - i + 1),
{
    lemma_packed_is_row_offset(k, i, j);
    lemma_row_start_monotone(k, i, k);
    lemma_row_start_monotone(k, 0, i);
    lemma_row_start_formula(k, k);
    assert(k * (2 * k - k + 1) == k * (k + 1)) by (nonlinear_arith);
    assert(0 <= i * (2 * k - i + 1)) by (nonlinear_arith)
        requires
            0 <= i < k,
    ;
}

/// The policy between two kinds does not depend on the order in which they are named.
pub proof fn lemma_interaction_symmetric(p: Parameters, i: int, j: int)
    requires
        p.interactions_sized(),
        0 <= i < p.kinds(),
        0 <= j < p.kinds(),
    ensures
        p.interaction(i, j) == p.interaction(j, i),
{
}

/// The packing maps the unordered pairs over `k` kinds one-to-one onto the indices
/// `0 .. k * (k + 1) / 2` of the table.
pub proof fn lemma_packed_index_bijective(k: int)
    requires
        0 <= k,
    ensures
        forall|i: int, j: int|
            0 <= i <= j < k ==> 0 <= #[trigger] packed_index(k, i, j) < triangle(k),
        forall|i1: int, j1: int, i2: int, j2: int|
            0 <= i1 <= j1 < k && 0 <= i2 <= j2 < k && #[trigger] packed_index(k, i1, j1)
                == #[trigger] packed_index(k, i2, j2) ==> i1 == i2 && j1 == j2,
        forall|n: int| 0 <= n < triangle(k) ==> #[trigger] slot_is_packed(k, n),
{
    assert forall|i: int, j: int| 0 <= i <= j < k implies 0 <= #[trigger] packed_index(k, i, j)
        < triangle(k) by {
        lemma_packed_index_in_range(k, i, j);
    }
    assert forall|i1: int, j1: int, i2: int, j2: int|
        0 <= i1 <= j1 < k && 0 <= i2 <= j2 < k && #[trigger] packed_index(k, i1, j1)
            == #[trigger] packed_index(k, i2, j2) implies i1 == i2 && j1 == j2 by {
        lemma_packed_is_row_offset(k, i1, j1);
        lemma_packed_is_row_offset(k, i2, j2);
        if i1 < i2 {
            lemma_row_start_monotone(k, i1 + 1, i2);
        } else if i2 < i1 {
            lemma_row_start_monotone(k, i2 + 1, i1);
        }
    }
    lemma_row_start_formula(k, k);
    assert(k * (2 * k - k + 1) == k * (k + 1)) by (nonlinear_arith);
    assert forall|n: int| 0 <= n < triangle(k) implies #[trigger] slot_is_packed(k, n) by {
        lemma_rows_cover(k, k, n);
    }
}

/// An index before the start of row `r` belongs to a pair in one of the rows before it.
proof fn lemma_rows_cover(k: int, r: int, n: int)
    requires
        0 <= r <= k,
        0 <= n < row_start(k, r),
    ensures
        exists|i: int, j: int| 0 <= i <= j < k && i < r && #[trigger] packed_index(k, i, j) == n,
    decreases r,
{
    if n >= row_start(k, r - 1) {
        let j = (r - 1) + (n - row_start(k, r - 1));
        lemma_packed_is_row_offset(k, r - 1, j);
        assert(packed_index(k, r - 1, j) == n);
    } else {
        lemma_rows_cover(k, r - 1, n);
    }
}

} // verus!
