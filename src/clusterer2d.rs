//! Clustering 2 bytes into a cluster id with a lookup table.
use vstd::prelude::*;
use crate::size2d::Size2d;

verus! {

/// Why a lookup table cannot become a [`Clusterer2d`].
#[derive(Copy, Clone, Debug, PartialEq, Eq, Structural)]
pub enum Clusterer2dError {
    /// The table has fewer than 2 entries: their number.
    TooFewClusters(usize),
    /// The size's area and the table's length differ: the area, then the length.
    SizeMismatch(u64, usize),
}

/// The number of input values that fall into one cluster along an axis of `count` clusters:
/// `ceil(256 / count)`.
pub open spec fn spec_cluster_size(count: u32) -> u32 {
    ((256 + count - 1) / count as int) as u32
}

/// Splits the 2d space of 2 bytes into a grid of clusters and looks up the id of each.
#[derive(Debug, PartialEq, Eq)]
pub struct Clusterer2d {
    lookup_table_size: Size2d,
    cluster_size: Size2d,
    cluster_id_lookup: Vec<u8>,
}

/// The portable description of a [`Clusterer2d`].
#[derive(Debug, PartialEq, Eq)]
pub struct Clusterer2dData {
    pub size: Size2d,
    pub cluster_id_lookup: Vec<u8>,
}

impl Clusterer2dData {
    /// Creates the description.
    pub fn new(size: Size2d, cluster_id_lookup: Vec<u8>) -> (r: Clusterer2dData)
        ensures
            r == (Clusterer2dData { size, cluster_id_lookup }),
    {
        Clusterer2dData { size, cluster_id_lookup }
    }

    /// Whether the description converts into a clusterer.
    pub open spec fn valid(&self) -> bool {
        self.size.spec_area() == self.cluster_id_lookup@.len() && self.cluster_id_lookup@.len() >= 2
    }

    /// The error of an invalid description: a size mismatch before too few clusters.
    pub open spec fn spec_error(&self) -> Clusterer2dError {
        if self.size.spec_area() != self.cluster_id_lookup@.len() {
            Clusterer2dError::SizeMismatch(
                self.size.spec_area() as u64,
                self.cluster_id_lookup@.len() as usize,
            )
        } else {
            Clusterer2dError::TooFewClusters(self.cluster_id_lookup@.len() as usize)
        }
    }

    /// Converts the description into a clusterer.
    pub fn try_convert(self) -> (r: Result<Clusterer2d, Clusterer2dError>)
        ensures
            r is Ok <==> self.valid(),
            r matches Ok(c) ==> c.wf() && c.spec_size() == self.size && c.spec_table()
                == self.cluster_id_lookup,
            r matches Err(e) ==> e == self.spec_error(),
            self.size.spec_area() != self.cluster_id_lookup@.len() ==> r == Err::<Clusterer2d, _>(
                Clusterer2dError::SizeMismatch(
                    self.size.spec_area() as u64,
                    self.cluster_id_lookup@.len() as usize,
                ),
            ),
            self.size.spec_area() == self.cluster_id_lookup@.len() && self.cluster_id_lookup@.len() < 2
                ==> r == Err::<Clusterer2d, _>(
                Clusterer2dError::TooFewClusters(self.cluster_id_lookup@.len() as usize),
            ),
    {
        Clusterer2d::new(self.size, self.cluster_id_lookup)
    }
}

impl Clusterer2d {
    /// The size of the lookup table, in clusters.
    pub closed spec fn spec_size(&self) -> Size2d {
        self.lookup_table_size
    }

    /// The lookup table.
    pub closed spec fn spec_table(&self) -> Vec<u8> {
        self.cluster_id_lookup
    }

    /// The number of input values per cluster, along each axis.
    pub closed spec fn spec_cell_size(&self) -> Size2d {
        self.cluster_size
    }

    /// Every clusterer has a table of 2 or more entries, one per cluster.
    #[verifier::type_invariant]
    spec fn inv(&self) -> bool {
        &&& self.cluster_id_lookup@.len() == self.lookup_table_size.spec_area()
        &&& self.cluster_id_lookup@.len() >= 2
        &&& self.cluster_size.width == spec_cluster_size(self.lookup_table_size.width)
        &&& self.cluster_size.height == spec_cluster_size(self.lookup_table_size.height)
        &&& self.lookup_table_size.width > 0
        &&& self.lookup_table_size.height > 0
    }

    /// The clusterer's invariant, as it can be read from outside.
    pub open spec fn wf(&self) -> bool {
        &&& self.spec_table()@.len() == self.spec_size().spec_area()
        &&& self.spec_table()@.len() >= 2
        &&& self.spec_cell_size().width == spec_cluster_size(self.spec_size().width)
        &&& self.spec_cell_size().height == spec_cluster_size(self.spec_size().height)
        &&& self.spec_size().width > 0
        &&& self.spec_size().height > 0
    }

    /// The cluster id of the inputs: the entry of the table at the column `input0 / cell
    /// width` and the row `input1 / cell height`.
    pub open spec fn spec_cluster(&self, input0: u8, input1: u8) -> u8 {
        let x = input0 as int / self.spec_cell_size().width as int;
        let y = input1 as int / self.spec_cell_size().height as int;
        self.spec_table()@[y * self.spec_size().width + x]
    }

    /// Creates a clusterer. Fails if the table's length is not the size's area, or is below 2.
    pub fn new(size: Size2d, cluster_id_lookup: Vec<u8>) -> (r: Result<Clusterer2d, Clusterer2dError>)
        ensures
            r is Ok <==> size.spec_area() == cluster_id_lookup@.len() && cluster_id_lookup@.len()
                >= 2,
            r matches Ok(c) ==> c.wf() && c.spec_size() == size && c.spec_table()
                == cluster_id_lookup,
            size.spec_area() != cluster_id_lookup@.len() ==> r == Err::<Clusterer2d, _>(
                Clusterer2dError::SizeMismatch(
                    size.spec_area() as u64,
                    cluster_id_lookup@.len() as usize,
                ),
            ),
            size.spec_area() == cluster_id_lookup@.len() && cluster_id_lookup@.len() < 2 ==> r
                == Err::<Clusterer2d, _>(
                Clusterer2dError::TooFewClusters(cluster_id_lookup@.len() as usize),
            ),
    {
        proof {
            assert(size.width * size.height <= u32::MAX * u32::MAX) by (nonlinear_arith)
                requires
                    size.width <= u32::MAX,
                    size.height <= u32::MAX,
            ;
        }
        let area = (size.width as u64) * (size.height as u64);
        let length = cluster_id_lookup.len();
        if area != length as u64 {
            return Err(Clusterer2dError::SizeMismatch(area, length));
        } else if length < 2 {
            return Err(Clusterer2dError::TooFewClusters(length));
        }
        proof {
            if size.width == 0 || size.height == 0 {
                assert(size.width * size.height == 0) by (nonlinear_arith)
                    requires
                        size.width == 0 || size.height == 0,
                ;
            }
        }
        let width = calculate_cluster_size(size.width);
        let height = calculate_cluster_size(size.height);
        Ok(Clusterer2d { lookup_table_size: size, cluster_size: Size2d::new(width, height), cluster_id_lookup })
    }

    /// Returns the cluster id of 2 inputs.
    pub fn cluster(&self, input0: u8, input1: u8) -> (r: u8)
        ensures
            r == self.spec_cluster(input0, input1),
    {
        proof {
            use_type_invariant(self);
        }
        let cell_width = self.cluster_size.width;
        let cell_height = self.cluster_size.height;
        proof {
            lemma_cluster_below(input0 as u32, self.lookup_table_size.width);
            lemma_cluster_below(input1 as u32, self.lookup_table_size.height);
        }
        let x = input0 as u32 / cell_width;
        let y = input1 as u32 / cell_height;
        let count = self.cluster_id_lookup.len();
        assert(self.lookup_table_size.spec_area() == count);
        let index = self.lookup_table_size.to_index(x, y);
        self.cluster_id_lookup[index]
    }

    /// Converts the clusterer into its portable description.
    pub fn into_data(self) -> (r: Clusterer2dData)
        ensures
            r.valid(),
            r.size == self.spec_size(),
            r.cluster_id_lookup == self.spec_table(),
    {
        proof {
            use_type_invariant(&self);
        }
        Clusterer2dData { size: self.lookup_table_size, cluster_id_lookup: self.cluster_id_lookup }
    }
}

/// An input below 256 falls into one of the `count` clusters.
proof fn lemma_cluster_below(input: u32, count: u32)
    requires
        input < 256,
        count > 0,
    ensures
        input as int / (spec_cluster_size(count) as int) < count,
        spec_cluster_size(count) > 0,
{
    let c = (256 + count - 1) / count as int;
    assert(c * count >= 256) by (nonlinear_arith)
        requires
            c == (256 + count - 1) / count as int,
            count > 0,
    ;
    assert(c >= 1) by (nonlinear_arith)
        requires
            c * count >= 256,
            count > 0,
    ;
    assert(c <= 256) by (nonlinear_arith)
        requires
            c == (256 + count - 1) / count as int,
            count > 0,
    ;
    assert(input as int / c < count) by (nonlinear_arith)
        requires
            c * count >= 256,
            input < 256,
            c >= 1,
    ;
}

/// Returns `ceil(256 / count)`.
fn calculate_cluster_size(count: u32) -> (r: u32)
    requires
        count > 0,
    ensures
        r == spec_cluster_size(count),
{
    ((256u64 + count as u64 - 1) / count as u64) as u32
}

} // verus!
