//! The generation of a map: an ordered list of steps, and its portable form.
use vstd::prelude::*;
use crate::map::{Map2d, MapView};
use crate::noise::NoiseSource;
use crate::size2d::Size2d;
use crate::step::{
    lemma_step_round_trip, names_of, GenerationStep, GenerationStepData, GenerationStepError,
};

verus! {

/// The attribute names declared by the first `i` portable steps.
pub open spec fn data_names_before(ds: Seq<GenerationStepData>, i: int) -> Seq<Seq<char>>
    decreases i,
{
    if i <= 0 || i > ds.len() {
        Seq::empty()
    } else {
        ds[i - 1].names_after(data_names_before(ds, i - 1))
    }
}

/// The attribute names declared by the first `i` steps.
pub open spec fn step_names_before(ss: Seq<GenerationStep>, i: int) -> Seq<Seq<char>>
    decreases i,
{
    if i <= 0 || i > ss.len() {
        Seq::empty()
    } else {
        ss[i - 1].names_after(step_names_before(ss, i - 1))
    }
}

/// Whether the portable step `i` resolves: each attribute it names was created by an earlier
/// step, and its generators and transformers are valid.
pub open spec fn data_step_ok(ds: Seq<GenerationStepData>, i: int) -> bool {
    ds[i].refs_known(data_names_before(ds, i)) && ds[i].configs_valid()
}

/// Whether every step can run after the steps before it.
pub open spec fn steps_valid(ss: Seq<GenerationStep>) -> bool {
    forall|i: int| 0 <= i < ss.len() ==> (#[trigger] ss[i]).valid_for(step_names_before(ss, i).len())
}

/// The contents of a map after running the first `i` steps on `m`.
pub open spec fn run_steps<N: NoiseSource>(ss: Seq<GenerationStep>, m: MapView, noise: &N, i: int) -> MapView
    decreases i,
{
    if i <= 0 || i > ss.len() {
        m
    } else {
        ss[i - 1].spec_run(run_steps(ss, m, noise, i - 1), noise)
    }
}

/// Why a [`MapGenerationData`] cannot become a [`MapGeneration`]: the index of the first step
/// that does not resolve, and why.
#[derive(Debug, PartialEq, Eq)]
pub enum MapGenerationError {
    GenerationStep(usize, GenerationStepError),
}

/// Generates a map of a size by running its steps in order.
pub struct MapGeneration {
    name: String,
    size: Size2d,
    steps: Vec<GenerationStep>,
}

/// The portable form of a [`MapGeneration`], with its attributes referenced by name.
pub struct MapGenerationData {
    pub name: String,
    pub size: Size2d,
    pub steps: Vec<GenerationStepData>,
}

impl MapGeneration {
    /// The name of the maps generated.
    pub closed spec fn spec_name(&self) -> String {
        self.name
    }

    /// The size of the maps generated.
    pub closed spec fn spec_size(&self) -> Size2d {
        self.size
    }

    /// The steps, in the order they run.
    pub closed spec fn spec_steps(&self) -> Seq<GenerationStep> {
        self.steps@
    }

    /// Every step can run, and a map of the size can be held.
    pub open spec fn wf(&self) -> bool {
        steps_valid(self.spec_steps()) && self.spec_size().spec_area() <= usize::MAX
    }

    /// Whether `d` is this generation with each step converted against the names declared
    /// before it.
    pub open spec fn converts_to(&self, d: MapGenerationData) -> bool {
        &&& d.name == self.spec_name()
        &&& d.size == self.spec_size()
        &&& d.steps@.len() == self.spec_steps().len()
        &&& forall|i: int|
            0 <= i < d.steps@.len() ==> (#[trigger] self.spec_steps()[i]).converts_to(
                step_names_before(self.spec_steps(), i),
                d.steps@[i],
            )
    }

    /// Creates a generation from steps that can each run after those before them.
    pub fn new(name: String, size: Size2d, steps: Vec<GenerationStep>) -> (r: MapGeneration)
        requires
            steps_valid(steps@),
            size.spec_area() <= usize::MAX,
        ensures
            r.wf(),
            r.spec_name() == name,
            r.spec_size() == size,
            r.spec_steps() == steps@,
    {
        MapGeneration { name, size, steps }
    }

    /// Creates an empty map of the size and runs each step on it, in order.
    pub fn generate<N: NoiseSource>(&self, noise: &N) -> (r: Map2d)
        requires
            self.wf(),
        ensures
            r.wf(),
            r@ == run_steps(
                self.spec_steps(),
                MapView::empty(self.spec_name()@, self.spec_size()),
                noise,
                self.spec_steps().len() as int,
            ),
    {
        let mut map = Map2d::with_name(self.name.clone(), self.size);
        let ghost start = map@;
        assert(map@.names =~= Seq::<Seq<char>>::empty());
        assert(map@.values =~= Seq::<Seq<u8>>::empty());
        assert(start == MapView::empty(self.spec_name()@, self.spec_size()));
        let mut i: usize = 0;
        while i < self.steps.len()
            invariant
                self.wf(),
                0 <= i <= self.steps@.len(),
                map.wf(),
                start == MapView::empty(self.spec_name()@, self.spec_size()),
                map@ == run_steps(self.steps@, start, noise, i as int),
                map@.names == step_names_before(self.steps@, i as int),
            decreases self.steps@.len() - i,
        {
            assert(self.steps@[i as int].valid_for(step_names_before(self.steps@, i as int).len()));
            self.steps[i].run(&mut map, noise);
            i = i + 1;
        }
        map
    }
}

impl MapGenerationData {
    /// Creates the portable form.
    pub fn new(name: String, size: Size2d, steps: Vec<GenerationStepData>) -> (r: MapGenerationData)
        ensures
            r == (MapGenerationData { name, size, steps }),
    {
        MapGenerationData { name, size, steps }
    }

    /// Whether every step resolves after those before it.
    pub open spec fn resolvable(&self) -> bool {
        forall|i: int| 0 <= i < self.steps@.len() ==> data_step_ok(self.steps@, i)
    }

    /// Whether `g` is this description with each step resolved against the names declared
    /// before it.
    pub open spec fn resolves_to(&self, g: MapGeneration) -> bool {
        &&& g.spec_name() == self.name
        &&& g.spec_size() == self.size
        &&& g.spec_steps().len() == self.steps@.len()
        &&& forall|i: int|
            0 <= i < self.steps@.len() ==> (#[trigger] self.steps@[i]).resolves_to(
                data_names_before(self.steps@, i),
                g.spec_steps()[i],
            )
    }

    /// Whether both describe the same generation: equal, with names compared by their
    /// characters.
    pub open spec fn equivalent(&self, other: MapGenerationData) -> bool {
        &&& self.name@ == other.name@
        &&& self.size == other.size
        &&& self.steps@.len() == other.steps@.len()
        &&& forall|i: int| 0 <= i < self.steps@.len() ==> (#[trigger] self.steps@[i]).equivalent(other.steps@[i])
    }

    /// Converts a generation into its portable form, replaying the declarations of its steps to
    /// name their attributes.
    pub fn from(generation: MapGeneration) -> (r: MapGenerationData)
        requires
            generation.wf(),
        ensures
            generation.converts_to(r),
    {
        let ghost ss = generation.steps@;
        let MapGeneration { name, size, steps } = generation;
        let mut rest = steps;
        let mut attributes: Vec<String> = Vec::new();
        let mut converted: Vec<GenerationStepData> = Vec::new();
        assert(names_of(attributes@) =~= step_names_before(ss, 0));
        while rest.len() > 0
            invariant
                ss == generation.spec_steps(),
                steps_valid(ss),
                converted@.len() + rest@.len() == ss.len(),
                rest@ == ss.subrange(converted@.len() as int, ss.len() as int),
                names_of(attributes@) == step_names_before(ss, converted@.len() as int),
                forall|j: int|
                    0 <= j < converted@.len() ==> (#[trigger] ss[j]).converts_to(
                        step_names_before(ss, j),
                        converted@[j],
                    ),
            decreases rest@.len(),
        {
            let ghost k = converted@.len() as int;
            let step = rest.remove(0);
            assert(step == ss[k]);
            assert(ss[k].valid_for(step_names_before(ss, k).len()));
            let data = step.convert(&mut attributes);
            converted.push(data);
            assert(rest@ =~= ss.subrange(k + 1, ss.len() as int));
        }
        MapGenerationData { name, size, steps: converted }
    }
}

impl MapGeneration {
    /// Resolves a portable description: each step's attribute names become the ids of the
    /// attributes declared by the steps before it. Fails at the first step that names an
    /// attribute no earlier step creates, or that holds an invalid generator or transformer.
    pub fn try_from(data: MapGenerationData) -> (r: Result<MapGeneration, MapGenerationError>)
        requires
            data.size.spec_area() <= usize::MAX,
        ensures
            r is Ok <==> data.resolvable(),
            r matches Ok(g) ==> g.wf() && data.resolves_to(g),
            r matches Err(MapGenerationError::GenerationStep(i, e)) ==> i < data.steps@.len()
                && !data_step_ok(data.steps@, i as int) && (forall|j: int|
                0 <= j < i ==> data_step_ok(data.steps@, j)) && data.steps@[i as int].is_error_for(
                data_names_before(data.steps@, i as int),
                e,
            ),
    {
        let ghost ds = data.steps@;
        let MapGenerationData { name, size, steps } = data;
        let mut rest = steps;
        let mut attributes: Vec<String> = Vec::new();
        let mut resolved: Vec<GenerationStep> = Vec::new();
        assert(names_of(attributes@) =~= data_names_before(ds, 0));
        while rest.len() > 0
            invariant
                ds == data.steps@,
                resolved@.len() + rest@.len() == ds.len(),
                rest@ == ds.subrange(resolved@.len() as int, ds.len() as int),
                names_of(attributes@) == data_names_before(ds, resolved@.len() as int),
                forall|j: int| 0 <= j < resolved@.len() ==> data_step_ok(ds, j),
                forall|j: int|
                    0 <= j < resolved@.len() ==> (#[trigger] ds[j]).resolves_to(
                        data_names_before(ds, j),
                        resolved@[j],
                    ),
                forall|j: int|
                    0 <= j <= resolved@.len() ==> step_names_before(resolved@, j)
                        == data_names_before(ds, j),
                steps_valid(resolved@),
            decreases rest@.len(),
        {
            let ghost k = resolved@.len() as int;
            let step = rest.remove(0);
            assert(step == ds[k]);
            let index = resolved.len();
            match step.try_convert(&mut attributes) {
                Ok(s) => {
                    let ghost before = resolved@;
                    resolved.push(s);
                    proof {
                        assert forall|j: int| 0 <= j <= resolved@.len() implies step_names_before(resolved@, j)
                            == data_names_before(ds, j) by {
                            lemma_names_prefix(before, s, j);
                            if j == k + 1 {
                                lemma_resolved_names(ds[k], data_names_before(ds, k), s);
                            }
                        }
                        assert forall|j: int| 0 <= j < resolved@.len() implies (#[trigger] resolved@[j]).valid_for(
                            step_names_before(resolved@, j).len(),
                        ) by {
                            lemma_names_prefix(before, s, j);
                            if j < k {
                                assert(before[j].valid_for(step_names_before(before, j).len()));
                            }
                        }
                    }
                    assert(rest@ =~= ds.subrange(k + 1, ds.len() as int));
                },
                Err(e) => {
                    proof {
                        assert(!data_step_ok(ds, k));
                        assert(!(forall|i: int| 0 <= i < ds.len() ==> data_step_ok(ds, i)));
                        assert(index == k);
                    }
                    return Err(MapGenerationError::GenerationStep(index, e));
                },
            }
        }
        Ok(MapGeneration { name, size, steps: resolved })
    }
}

/// Appending a step changes none of the names declared before it.
proof fn lemma_names_prefix(ss: Seq<GenerationStep>, s: GenerationStep, j: int)
    requires
        0 <= j <= ss.len() + 1,
    ensures
        j <= ss.len() ==> step_names_before(ss.push(s), j) == step_names_before(ss, j),
        j == ss.len() + 1 ==> step_names_before(ss.push(s), j) == s.names_after(
            step_names_before(ss, ss.len() as int),
        ),
    decreases j,
{
    if j > 0 {
        lemma_names_prefix(ss, s, j - 1);
        if j <= ss.len() {
            assert(ss.push(s)[j - 1] == ss[j - 1]);
        } else {
            assert(ss.push(s)[j - 1] == s);
        }
    }
}

/// A resolved step declares the same names as its portable form.
proof fn lemma_resolved_names(d: GenerationStepData, names: Seq<Seq<char>>, s: GenerationStep)
    requires
        d.resolves_to(names, s),
    ensures
        s.names_after(names) == d.names_after(names),
{
}

/// Resolving a portable description and converting the result back gives a description of
/// the same generation: the same name and size, and each step equal to the original with
/// names compared by their characters.
pub proof fn lemma_round_trip(d: MapGenerationData, g: MapGeneration, e: MapGenerationData)
    requires
        d.resolvable(),
        d.resolves_to(g),
        g.converts_to(e),
    ensures
        e.equivalent(d),
{
    let ds = d.steps@;
    let ss = g.spec_steps();
    assert forall|i: int| 0 <= i <= ds.len() implies step_names_before(ss, i) == data_names_before(ds, i) by {
        lemma_names_agree(ds, ss, i);
    }
    assert forall|i: int| 0 <= i < ds.len() implies (#[trigger] e.steps@[i]).equivalent(ds[i]) by {
        assert(data_step_ok(ds, i));
        assert(ds[i].resolves_to(data_names_before(ds, i), ss[i]));
        assert(ss[i].converts_to(step_names_before(ss, i), e.steps@[i]));
        lemma_step_round_trip(ds[i], data_names_before(ds, i), ss[i], e.steps@[i]);
    }
    assert forall|i: int| 0 <= i < e.steps@.len() implies (#[trigger] e.steps@[i]).equivalent(ds[i]) by {}
}

/// Resolved steps declare the same names, step by step, as their portable forms.
proof fn lemma_names_agree(ds: Seq<GenerationStepData>, ss: Seq<GenerationStep>, i: int)
    requires
        ss.len() == ds.len(),
        0 <= i <= ds.len(),
        forall|j: int|
            0 <= j < ds.len() ==> (#[trigger] ds[j]).resolves_to(data_names_before(ds, j), ss[j]),
    ensures
        step_names_before(ss, i) == data_names_before(ds, i),
    decreases i,
{
    if i > 0 {
        lemma_names_agree(ds, ss, i - 1);
        lemma_resolved_names(ds[i - 1], data_names_before(ds, i - 1), ss[i - 1]);
    }
}

} // verus!
