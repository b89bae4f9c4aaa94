use vstd::prelude::*;
use crate::ResolveError;

verus! {

/// One explorer entry of a chain record: the base URL of a block explorer.
#[derive(Debug)]
pub struct ChainExplorer {
    pub url: String,
}

/// Mathematical model of a [`ChainExplorer`].
pub struct ExplorerModel {
    pub url: Seq<char>,
}

impl View for ChainExplorer {
    type V = ExplorerModel;

    open spec fn view(&self) -> ExplorerModel {
        ExplorerModel { url: self.url@ }
    }
}

/// Metadata of one chain, as the registry describes it: a display name, a
/// description, whether the chain is a test network, and an ordered list of
/// explorers. Only the first explorer is ever used for resolution.
#[derive(Debug)]
pub struct Chain {
    pub name: String,
    pub description: String,
    pub is_test_net: bool,
    pub explorers: Vec<ChainExplorer>,
}

/// Mathematical model of a [`Chain`].
pub struct ChainModel {
    pub name: Seq<char>,
    pub description: Seq<char>,
    pub is_test_net: bool,
    pub explorers: Seq<ExplorerModel>,
}

impl View for Chain {
    type V = ChainModel;

    open spec fn view(&self) -> ChainModel {
        ChainModel {
            name: self.name@,
            description: self.description@,
            is_test_net: self.is_test_net,
            explorers: Seq::new(self.explorers@.len(), |i: int| self.explorers@[i]@),
        }
    }
}

impl ChainModel {
    /// The result resolution owes on this record: the first explorer's URL
    /// when one exists, and `NoExplorerAvailable` otherwise.
    pub open spec fn primary_url(self) -> Result<Seq<char>, ResolveError> {
        if self.explorers.len() > 0 {
            Ok(self.explorers[0].url)
        } else {
            Err(ResolveError::NoExplorerAvailable)
        }
    }
}

/// The model of a URL result: the `Ok` string is abstracted to its
/// character sequence, errors are kept as they are.
pub open spec fn url_result_view(r: Result<String, ResolveError>) -> Result<
    Seq<char>,
    ResolveError,
> {
    match r {
        Ok(u) => Ok(u@),
        Err(e) => Err(e),
    }
}

impl Clone for ChainExplorer {
    fn clone(&self) -> (r: Self)
        ensures
            r@ == self@,
    {
        ChainExplorer { url: self.url.clone() }
    }
}

impl Clone for Chain {
    fn clone(&self) -> (r: Self)
        ensures
            r@ == self@,
    {
        let mut explorers: Vec<ChainExplorer> = Vec::new();
        let mut i: usize = 0;
        while i < self.explorers.len()
            invariant
                i <= self.explorers.len(),
                explorers@.len() == i,
                forall|j: int| 0 <= j < i ==> explorers@[j]@ == self.explorers@[j]@,
            decreases self.explorers.len() - i,
        {
            explorers.push(self.explorers[i].clone());
            i = i + 1;
        }
        let r = Chain {
            name: self.name.clone(),
            description: self.description.clone(),
            is_test_net: self.is_test_net,
            explorers,
        };
        proof {
            assert(r@.explorers =~= self@.explorers);
        }
        r
    }
}

impl Chain {
    pub fn get_url(&self) -> (r: Result<String, ResolveError>)
        ensures
            url_result_view(r) == self@.primary_url(),
    {
        if self.explorers.len() > 0 {
            return Ok(self.explorers[0].url.clone());
        }
        Err(ResolveError::NoExplorerAvailable)
    }
}

} // verus!
