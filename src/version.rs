use vstd::prelude::*;

verus! {

/// The closed set of winning-number algorithms, each selected by its tag.
#[derive(Debug, Clone, Copy, PartialEq, Eq, Structural)]
pub enum AlgorithmVersion {
    /// SHA-256 over slot (little-endian) and hash bytes, byte sum, remainder.
    V1,
}

/// The tag that names each algorithm version.
pub open spec fn version_tag(v: AlgorithmVersion) -> Seq<char> {
    match v {
        AlgorithmVersion::V1 => seq!['v', '1'],
    }
}

impl AlgorithmVersion {
    /// The tag of this version, as written in results and test records.
    pub fn tag(self) -> (r: &'static str)
        ensures
            r@ == version_tag(self),
    {
        proof {
            reveal_strlit("v1");
        }
        match self {
            AlgorithmVersion::V1 => "v1",
        }
    }
}

/// Selects the algorithm version that `tag` names; `None` for any other tag,
/// which a caller must treat as a version mismatch.
pub fn parse_algorithm_version(tag: &str) -> (r: Option<AlgorithmVersion>)
    ensures
        r matches Some(v) ==> version_tag(v) == tag@,
        r is None ==> forall|v: AlgorithmVersion| version_tag(v) != tag@,
{
    if tag.unicode_len() == 2 && tag.get_char(0) == 'v' && tag.get_char(1) == '1' {
        assert(tag@ =~= seq!['v', '1']);
        Some(AlgorithmVersion::V1)
    } else {
        assert forall|v: AlgorithmVersion| version_tag(v) != tag@ by {
            if version_tag(v) == tag@ {
                assert(tag@[0] == 'v' && tag@[1] == '1');
            }
        }
        None
    }
}

} // verus!
