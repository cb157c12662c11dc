//! Tuples of bundle members as bundles.

use crate::component::{
    bundle_view, name_views, push_member, with_member, Bundle, BundleComponent, BundleData,
    StorageError,
};
use crate::value::StoreValueView;
use vstd::prelude::*;

verus! {

impl<A: BundleComponent> Bundle for (A,) {
    open spec fn names() -> Seq<Seq<char>> {
        seq![A::NAME@]
    }

    fn component_names() -> (names: Vec<&'static str>) {
        let mut names = Vec::new();
        names.push(A::NAME);
        assert(name_views(names@) =~= seq![A::NAME@]);
        names
    }

    open spec fn stored(&self) -> Result<Seq<(Seq<char>, Option<StoreValueView>)>, Seq<char>> {
        let data = Ok(Seq::empty());
        let data = with_member(data, A::NAME@, self.0.stored());
        data
    }

    fn to_rusqlite(&self) -> (data: Result<BundleData, StorageError>) {
        let mut data: BundleData = Vec::new();
        assert(bundle_view(data@) =~= Seq::empty());
        match push_member(&mut data, A::NAME, self.0.to_rusqlite()) {
            Ok(_) => {},
            Err(error) => {
                return Err(error);
            },
        }
        Ok(data)
    }
}

impl<A: BundleComponent, B: BundleComponent> Bundle for (A, B) {
    open spec fn names() -> Seq<Seq<char>> {
        seq![A::NAME@, B::NAME@]
    }

    fn component_names() -> (names: Vec<&'static str>) {
        let mut names = Vec::new();
        names.push(A::NAME);
        names.push(B::NAME);
        assert(name_views(names@) =~= seq![A::NAME@, B::NAME@]);
        names
    }

    open spec fn stored(&self) -> Result<Seq<(Seq<char>, Option<StoreValueView>)>, Seq<char>> {
        let data = Ok(Seq::empty());
        let data = with_member(data, A::NAME@, self.0.stored());
        let data = with_member(data, B::NAME@, self.1.stored());
        data
    }

    fn to_rusqlite(&self) -> (data: Result<BundleData, StorageError>) {
        let mut data: BundleData = Vec::new();
        assert(bundle_view(data@) =~= Seq::empty());
        match push_member(&mut data, A::NAME, self.0.to_rusqlite()) {
            Ok(_) => {},
            Err(error) => {
                return Err(error);
            },
        }
        match push_member(&mut data, B::NAME, self.1.to_rusqlite()) {
            Ok(_) => {},
            Err(error) => {
                return Err(error);
            },
        }
        Ok(data)
    }
}

impl<A: BundleComponent, B: BundleComponent, C: BundleComponent> Bundle for (A, B, C) {
    open spec fn names() -> Seq<Seq<char>> {
        seq![A::NAME@, B::NAME@, C::NAME@]
    }

    fn component_names() -> (names: Vec<&'static str>) {
        let mut names = Vec::new();
        names.push(A::NAME);
        names.push(B::NAME);
        names.push(C::NAME);
        assert(name_views(names@) =~= seq![A::NAME@, B::NAME@, C::NAME@]);
        names
    }

    open spec fn stored(&self) -> Result<Seq<(Seq<char>, Option<StoreValueView>)>, Seq<char>> {
        let data = Ok(Seq::empty());
        let data = with_member(data, A::NAME@, self.0.stored());
        let data = with_member(data, B::NAME@, self.1.stored());
        let data = with_member(data, C::NAME@, self.2.stored());
        data
    }

    fn to_rusqlite(&self) -> (data: Result<BundleData, StorageError>) {
        let mut data: BundleData = Vec::new();
        assert(bundle_view(data@) =~= Seq::empty());
        match push_member(&mut data, A::NAME, self.0.to_rusqlite()) {
            Ok(_) => {},
            Err(error) => {
                return Err(error);
            },
        }
        match push_member(&mut data, B::NAME, self.1.to_rusqlite()) {
            Ok(_) => {},
            Err(error) => {
                return Err(error);
            },
        }
        match push_member(&mut data, C::NAME, self.2.to_rusqlite()) {
            Ok(_) => {},
            Err(error) => {
                return Err(error);
            },
        }
        Ok(data)
    }
}

impl<
    A: BundleComponent,
    B: BundleComponent,
    C: BundleComponent,
    D: BundleComponent,
> Bundle for (A, B, C, D) {
    open spec fn names() -> Seq<Seq<char>> {
        seq![A::NAME@, B::NAME@, C::NAME@, D::NAME@]
    }

    fn component_names() -> (names: Vec<&'static str>) {
        let mut names = Vec::new();
        names.push(A::NAME);
        names.push(B::NAME);
        names.push(C::NAME);
        names.push(D::NAME);
        assert(name_views(names@) =~= seq![A::NAME@, B::NAME@, C::NAME@, D::NAME@]);
        names
    }

    open spec fn stored(&self) -> Result<Seq<(Seq<char>, Option<StoreValueView>)>, Seq<char>> {
        let data = Ok(Seq::empty());
        let data = with_member(data, A::NAME@, self.0.stored());
        let data = with_member(data, B::NAME@, self.1.stored());
        let data = with_member(data, C::NAME@, self.2.stored());
        let data = with_member(data, D::NAME@, self.3.stored());
        data
    }

    fn to_rusqlite(&self) -> (data: Result<BundleData, StorageError>) {
        let mut data: BundleData = Vec::new();
        assert(bundle_view(data@) =~= Seq::empty());
        match push_member(&mut data, A::NAME, self.0.to_rusqlite()) {
            Ok(_) => {},
            Err(error) => {
                return Err(error);
            },
        }
        match push_member(&mut data, B::NAME, self.1.to_rusqlite()) {
            Ok(_) => {},
            Err(error) => {
                return Err(error);
            },
        }
        match push_member(&mut data, C::NAME, self.2.to_rusqlite()) {
            Ok(_) => {},
            Err(error) => {
                return Err(error);
            },
        }
        match push_member(&mut data, D::NAME, self.3.to_rusqlite()) {
            Ok(_) => {},
            Err(error) => {
                return Err(error);
            },
        }
        Ok(data)
    }
}

impl<
    A: BundleComponent,
    B: BundleComponent,
    C: BundleComponent,
    D: BundleComponent,
    E: BundleComponent,
> Bundle for (A, B, C, D, E) {
    open spec fn names() -> Seq<Seq<char>> {
        seq![A::NAME@, B::NAME@, C::NAME@, D::NAME@, E::NAME@]
    }

    fn component_names() -> (names: Vec<&'static str>) {
        let mut names = Vec::new();
        names.push(A::NAME);
        names.push(B::NAME);
        names.push(C::NAME);
        names.push(D::NAME);
        names.push(E::NAME);
        assert(name_views(names@) =~= seq![A::NAME@, B::NAME@, C::NAME@, D::NAME@, E::NAME@]);
        names
    }

    open spec fn stored(&self) -> Result<Seq<(Seq<char>, Option<StoreValueView>)>, Seq<char>> {
        let data = Ok(Seq::empty());
        let data = with_member(data, A::NAME@, self.0.stored());
        let data = with_member(data, B::NAME@, self.1.stored());
        let data = with_member(data, C::NAME@, self.2.stored());
        let data = with_member(data, D::NAME@, self.3.stored());
        let data = with_member(data, E::NAME@, self.4.stored());
        data
    }

    fn to_rusqlite(&self) -> (data: Result<BundleData, StorageError>) {
        let mut data: BundleData = Vec::new();
        assert(bundle_view(data@) =~= Seq::empty());
        match push_member(&mut data, A::NAME, self.0.to_rusqlite()) {
            Ok(_) => {},
            Err(error) => {
                return Err(error);
            },
        }
        match push_member(&mut data, B::NAME, self.1.to_rusqlite()) {
            Ok(_) => {},
            Err(error) => {
                return Err(error);
            },
        }
        match push_member(&mut data, C::NAME, self.2.to_rusqlite()) {
            Ok(_) => {},
            Err(error) => {
                return Err(error);
            },
        }
        match push_member(&mut data, D::NAME, self.3.to_rusqlite()) {
            Ok(_) => {},
            Err(error) => {
                return Err(error);
            },
        }
        match push_member(&mut data, E::NAME, self.4.to_rusqlite()) {
            Ok(_) => {},
            Err(error) => {
                return Err(error);
            },
        }
        Ok(data)
    }
}

impl<
    A: BundleComponent,
    B: BundleComponent,
    C: BundleComponent,
    D: BundleComponent,
    E: BundleComponent,
    F: BundleComponent,
> Bundle for (A, B, C, D, E, F) {
    open spec fn names() -> Seq<Seq<char>> {
        seq![A::NAME@, B::NAME@, C::NAME@, D::NAME@, E::NAME@, F::NAME@]
    }

    fn component_names() -> (names: Vec<&'static str>) {
        let mut names = Vec::new();
        names.push(A::NAME);
        names.push(B::NAME);
        names.push(C::NAME);
        names.push(D::NAME);
        names.push(E::NAME);
        names.push(F::NAME);
        assert(name_views(names@) =~= seq![
            A::NAME@,
            B::NAME@,
            C::NAME@,
            D::NAME@,
            E::NAME@,
            F::NAME@,
        ]);
        names
    }

    open spec fn stored(&self) -> Result<Seq<(Seq<char>, Option<StoreValueView>)>, Seq<char>> {
        let data = Ok(Seq::empty());
        let data = with_member(data, A::NAME@, self.0.stored());
        let data = with_member(data, B::NAME@, self.1.stored());
        let data = with_member(data, C::NAME@, self.2.stored());
        let data = with_member(data, D::NAME@, self.3.stored());
        let data = with_member(data, E::NAME@, self.4.stored());
        let data = with_member(data, F::NAME@, self.5.stored());
        data
    }

    fn to_rusqlite(&self) -> (data: Result<BundleData, StorageError>) {
        let mut data: BundleData = Vec::new();
        assert(bundle_view(data@) =~= Seq::empty());
        match push_member(&mut data, A::NAME, self.0.to_rusqlite()) {
            Ok(_) => {},
            Err(error) => {
                return Err(error);
            },
        }
        match push_member(&mut data, B::NAME, self.1.to_rusqlite()) {
            Ok(_) => {},
            Err(error) => {
                return Err(error);
            },
        }
        match push_member(&mut data, C::NAME, self.2.to_rusqlite()) {
            Ok(_) => {},
            Err(error) => {
                return Err(error);
            },
        }
        match push_member(&mut data, D::NAME, self.3.to_rusqlite()) {
            Ok(_) => {},
            Err(error) => {
                return Err(error);
            },
        }
        match push_member(&mut data, E::NAME, self.4.to_rusqlite()) {
            Ok(_) => {},
            Err(error) => {
                return Err(error);
            },
        }
        match push_member(&mut data, F::NAME, self.5.to_rusqlite()) {
            Ok(_) => {},
            Err(error) => {
                return Err(error);
            },
        }
        Ok(data)
    }
}

impl<
    A: BundleComponent,
    B: BundleComponent,
    C: BundleComponent,
    D: BundleComponent,
    E: BundleComponent,
    F: BundleComponent,
    G: BundleComponent,
> Bundle for (A, B, C, D, E, F, G) {
    open spec fn names() -> Seq<Seq<char>> {
        seq![A::NAME@, B::NAME@, C::NAME@, D::NAME@, E::NAME@, F::NAME@, G::NAME@]
    }

    fn component_names() -> (names: Vec<&'static str>) {
        let mut names = Vec::new();
        names.push(A::NAME);
        names.push(B::NAME);
        names.push(C::NAME);
        names.push(D::NAME);
        names.push(E::NAME);
        names.push(F::NAME);
        names.push(G::NAME);
        assert(name_views(names@) =~= seq![
            A::NAME@,
            B::NAME@,
            C::NAME@,
            D::NAME@,
            E::NAME@,
            F::NAME@,
            G::NAME@,
        ]);
        names
    }

    open spec fn stored(&self) -> Result<Seq<(Seq<char>, Option<StoreValueView>)>, Seq<char>> {
        let data = Ok(Seq::empty());
        let data = with_member(data, A::NAME@, self.0.stored());
        let data = with_member(data, B::NAME@, self.1.stored());
        let data = with_member(data, C::NAME@, self.2.stored());
        let data = with_member(data, D::NAME@, self.3.stored());
        let data = with_member(data, E::NAME@, self.4.stored());
        let data = with_member(data, F::NAME@, self.5.stored());
        let data = with_member(data, G::NAME@, self.6.stored());
        data
    }

    fn to_rusqlite(&self) -> (data: Result<BundleData, StorageError>) {
        let mut data: BundleData = Vec::new();
        assert(bundle_view(data@) =~= Seq::empty());
        match push_member(&mut data, A::NAME, self.0.to_rusqlite()) {
            Ok(_) => {},
            Err(error) => {
                return Err(error);
            },
        }
        match push_member(&mut data, B::NAME, self.1.to_rusqlite()) {
            Ok(_) => {},
            Err(error) => {
                return Err(error);
            },
        }
        match push_member(&mut data, C::NAME, self.2.to_rusqlite()) {
            Ok(_) => {},
            Err(error) => {
                return Err(error);
            },
        }
        match push_member(&mut data, D::NAME, self.3.to_rusqlite()) {
            Ok(_) => {},
            Err(error) => {
                return Err(error);
            },
        }
        match push_member(&mut data, E::NAME, self.4.to_rusqlite()) {
            Ok(_) => {},
            Err(error) => {
                return Err(error);
            },
        }
        match push_member(&mut data, F::NAME, self.5.to_rusqlite()) {
            Ok(_) => {},
            Err(error) => {
                return Err(error);
            },
        }
        match push_member(&mut data, G::NAME, self.6.to_rusqlite()) {
            Ok(_) => {},
            Err(error) => {
                return Err(error);
            },
        }
        Ok(data)
    }
}

impl<
    A: BundleComponent,
    B: BundleComponent,
    C: BundleComponent,
    D: BundleComponent,
    E: BundleComponent,
    F: BundleComponent,
    G: BundleComponent,
    H: BundleComponent,
> Bundle for (A, B, C, D, E, F, G, H) {
    open spec fn names() -> Seq<Seq<char>> {
        seq![A::NAME@, B::NAME@, C::NAME@, D::NAME@, E::NAME@, F::NAME@, G::NAME@, H::NAME@]
    }

    fn component_names() -> (names: Vec<&'static str>) {
        let mut names = Vec::new();
        names.push(A::NAME);
        names.push(B::NAME);
        names.push(C::NAME);
        names.push(D::NAME);
        names.push(E::NAME);
        names.push(F::NAME);
        names.push(G::NAME);
        names.push(H::NAME);
        assert(name_views(names@) =~= seq![
            A::NAME@,
            B::NAME@,
            C::NAME@,
            D::NAME@,
            E::NAME@,
            F::NAME@,
            G::NAME@,
            H::NAME@,
        ]);
        names
    }

    open spec fn stored(&self) -> Result<Seq<(Seq<char>, Option<StoreValueView>)>, Seq<char>> {
        let data = Ok(Seq::empty());
        let data = with_member(data, A::NAME@, self.0.stored());
        let data = with_member(data, B::NAME@, self.1.stored());
        let data = with_member(data, C::NAME@, self.2.stored());
        let data = with_member(data, D::NAME@, self.3.stored());
        let data = with_member(data, E::NAME@, self.4.stored());
        let data = with_member(data, F::NAME@, self.5.stored());
        let data = with_member(data, G::NAME@, self.6.stored());
        let data = with_member(data, H::NAME@, self.7.stored());
        data
    }

    fn to_rusqlite(&self) -> (data: Result<BundleData, StorageError>) {
        let mut data: BundleData = Vec::new();
        assert(bundle_view(data@) =~= Seq::empty());
        match push_member(&mut data, A::NAME, self.0.to_rusqlite()) {
            Ok(_) => {},
            Err(error) => {
                return Err(error);
            },
        }
        match push_member(&mut data, B::NAME, self.1.to_rusqlite()) {
            Ok(_) => {},
            Err(error) => {
                return Err(error);
            },
        }
        match push_member(&mut data, C::NAME, self.2.to_rusqlite()) {
            Ok(_) => {},
            Err(error) => {
                return Err(error);
            },
        }
        match push_member(&mut data, D::NAME, self.3.to_rusqlite()) {
            Ok(_) => {},
            Err(error) => {
                return Err(error);
            },
        }
        match push_member(&mut data, E::NAME, self.4.to_rusqlite()) {
            Ok(_) => {},
            Err(error) => {
                return Err(error);
            },
        }
        match push_member(&mut data, F::NAME, self.5.to_rusqlite()) {
            Ok(_) => {},
            Err(error) => {
                return Err(error);
            },
        }
        match push_member(&mut data, G::NAME, self.6.to_rusqlite()) {
            Ok(_) => {},
            Err(error) => {
                return Err(error);
            },
        }
        match push_member(&mut data, H::NAME, self.7.to_rusqlite()) {
            Ok(_) => {},
            Err(error) => {
                return Err(error);
            },
        }
        Ok(data)
    }
}

impl<
    A: BundleComponent,
    B: BundleComponent,
    C: BundleComponent,
    D: BundleComponent,
    E: BundleComponent,
    F: BundleComponent,
    G: BundleComponent,
    H: BundleComponent,
    I: BundleComponent,
> Bundle for (A, B, C, D, E, F, G, H, I) {
    open spec fn names() -> Seq<Seq<char>> {
        seq![
            A::NAME@,
            B::NAME@,
            C::NAME@,
            D::NAME@,
            E::NAME@,
            F::NAME@,
            G::NAME@,
            H::NAME@,
            I::NAME@,
        ]
    }

    fn component_names() -> (names: Vec<&'static str>) {
        let mut names = Vec::new();
        names.push(A::NAME);
        names.push(B::NAME);
        names.push(C::NAME);
        names.push(D::NAME);
        names.push(E::NAME);
        names.push(F::NAME);
        names.push(G::NAME);
        names.push(H::NAME);
        names.push(I::NAME);
        assert(name_views(names@) =~= seq![
            A::NAME@,
            B::NAME@,
            C::NAME@,
            D::NAME@,
            E::NAME@,
            F::NAME@,
            G::NAME@,
            H::NAME@,
            I::NAME@,
        ]);
        names
    }

    open spec fn stored(&self) -> Result<Seq<(Seq<char>, Option<StoreValueView>)>, Seq<char>> {
        let data = Ok(Seq::empty());
        let data = with_member(data, A::NAME@, self.0.stored());
        let data = with_member(data, B::NAME@, self.1.stored());
        let data = with_member(data, C::NAME@, self.2.stored());
        let data = with_member(data, D::NAME@, self.3.stored());
        let data = with_member(data, E::NAME@, self.4.stored());
        let data = with_member(data, F::NAME@, self.5.stored());
        let data = with_member(data, G::NAME@, self.6.stored());
        let data = with_member(data, H::NAME@, self.7.stored());
        let data = with_member(data, I::NAME@, self.8.stored());
        data
    }

    fn to_rusqlite(&self) -> (data: Result<BundleData, StorageError>) {
        let mut data: BundleData = Vec::new();
        assert(bundle_view(data@) =~= Seq::empty());
        match push_member(&mut data, A::NAME, self.0.to_rusqlite()) {
            Ok(_) => {},
            Err(error) => {
                return Err(error);
            },
        }
        match push_member(&mut data, B::NAME, self.1.to_rusqlite()) {
            Ok(_) => {},
            Err(error) => {
                return Err(error);
            },
        }
        match push_member(&mut data, C::NAME, self.2.to_rusqlite()) {
            Ok(_) => {},
            Err(error) => {
                return Err(error);
            },
        }
        match push_member(&mut data, D::NAME, self.3.to_rusqlite()) {
            Ok(_) => {},
            Err(error) => {
                return Err(error);
            },
        }
        match push_member(&mut data, E::NAME, self.4.to_rusqlite()) {
            Ok(_) => {},
            Err(error) => {
                return Err(error);
            },
        }
        match push_member(&mut data, F::NAME, self.5.to_rusqlite()) {
            Ok(_) => {},
            Err(error) => {
                return Err(error);
            },
        }
        match push_member(&mut data, G::NAME, self.6.to_rusqlite()) {
            Ok(_) => {},
            Err(error) => {
                return Err(error);
            },
        }
        match push_member(&mut data, H::NAME, self.7.to_rusqlite()) {
            Ok(_) => {},
            Err(error) => {
                return Err(error);
            },
        }
        match push_member(&mut data, I::NAME, self.8.to_rusqlite()) {
            Ok(_) => {},
            Err(error) => {
                return Err(error);
            },
        }
        Ok(data)
    }
}

impl<
    A: BundleComponent,
    B: BundleComponent,
    C: BundleComponent,
    D: BundleComponent,
    E: BundleComponent,
    F: BundleComponent,
    G: BundleComponent,
    H: BundleComponent,
    I: BundleComponent,
    J: BundleComponent,
> Bundle for (A, B, C, D, E, F, G, H, I, J) {
    open spec fn names() -> Seq<Seq<char>> {
        seq![
            A::NAME@,
            B::NAME@,
            C::NAME@,
            D::NAME@,
            E::NAME@,
            F::NAME@,
            G::NAME@,
            H::NAME@,
            I::NAME@,
            J::NAME@,
        ]
    }

    fn component_names() -> (names: Vec<&'static str>) {
        let mut names = Vec::new();
        names.push(A::NAME);
        names.push(B::NAME);
        names.push(C::NAME);
        names.push(D::NAME);
        names.push(E::NAME);
        names.push(F::NAME);
        names.push(G::NAME);
        names.push(H::NAME);
        names.push(I::NAME);
        names.push(J::NAME);
        assert(name_views(names@) =~= seq![
            A::NAME@,
            B::NAME@,
            C::NAME@,
            D::NAME@,
            E::NAME@,
            F::NAME@,
            G::NAME@,
            H::NAME@,
            I::NAME@,
            J::NAME@,
        ]);
        names
    }

    open spec fn stored(&self) -> Result<Seq<(Seq<char>, Option<StoreValueView>)>, Seq<char>> {
        let data = Ok(Seq::empty());
        let data = with_member(data, A::NAME@, self.0.stored());
        let data = with_member(data, B::NAME@, self.1.stored());
        let data = with_member(data, C::NAME@, self.2.stored());
        let data = with_member(data, D::NAME@, self.3.stored());
        let data = with_member(data, E::NAME@, self.4.stored());
        let data = with_member(data, F::NAME@, self.5.stored());
        let data = with_member(data, G::NAME@, self.6.stored());
        let data = with_member(data, H::NAME@, self.7.stored());
        let data = with_member(data, I::NAME@, self.8.stored());
        let data = with_member(data, J::NAME@, self.9.stored());
        data
    }

    fn to_rusqlite(&self) -> (data: Result<BundleData, StorageError>) {
        let mut data: BundleData = Vec::new();
        assert(bundle_view(data@) =~= Seq::empty());
        match push_member(&mut data, A::NAME, self.0.to_rusqlite()) {
            Ok(_) => {},
            Err(error) => {
                return Err(error);
            },
        }
        match push_member(&mut data, B::NAME, self.1.to_rusqlite()) {
            Ok(_) => {},
            Err(error) => {
                return Err(error);
            },
        }
        match push_member(&mut data, C::NAME, self.2.to_rusqlite()) {
            Ok(_) => {},
            Err(error) => {
                return Err(error);
            },
        }
        match push_member(&mut data, D::NAME, self.3.to_rusqlite()) {
            Ok(_) => {},
            Err(error) => {
                return Err(error);
            },
        }
        match push_member(&mut data, E::NAME, self.4.to_rusqlite()) {
            Ok(_) => {},
            Err(error) => {
                return Err(error);
            },
        }
        match push_member(&mut data, F::NAME, self.5.to_rusqlite()) {
            Ok(_) => {},
            Err(error) => {
                return Err(error);
            },
        }
        match push_member(&mut data, G::NAME, self.6.to_rusqlite()) {
            Ok(_) => {},
            Err(error) => {
                return Err(error);
            },
        }
        match push_member(&mut data, H::NAME, self.7.to_rusqlite()) {
            Ok(_) => {},
            Err(error) => {
                return Err(error);
            },
        }
        match push_member(&mut data, I::NAME, self.8.to_rusqlite()) {
            Ok(_) => {},
            Err(error) => {
                return Err(error);
            },
        }
        match push_member(&mut data, J::NAME, self.9.to_rusqlite()) {
            Ok(_) => {},
            Err(error) => {
                return Err(error);
            },
        }
        Ok(data)
    }
}

impl<
    A: BundleComponent,
    B: BundleComponent,
    C: BundleComponent,
    D: BundleComponent,
    E: BundleComponent,
    F: BundleComponent,
    G: BundleComponent,
    H: BundleComponent,
    I: BundleComponent,
    J: BundleComponent,
    K: BundleComponent,
> Bundle for (A, B, C, D, E, F, G, H, I, J, K) {
    open spec fn names() -> Seq<Seq<char>> {
        seq![
            A::NAME@,
            B::NAME@,
            C::NAME@,
            D::NAME@,
            E::NAME@,
            F::NAME@,
            G::NAME@,
            H::NAME@,
            I::NAME@,
            J::NAME@,
            K::NAME@,
        ]
    }

    fn component_names() -> (names: Vec<&'static str>) {
        let mut names = Vec::new();
        names.push(A::NAME);
        names.push(B::NAME);
        names.push(C::NAME);
        names.push(D::NAME);
        names.push(E::NAME);
        names.push(F::NAME);
        names.push(G::NAME);
        names.push(H::NAME);
        names.push(I::NAME);
        names.push(J::NAME);
        names.push(K::NAME);
        assert(name_views(names@) =~= seq![
            A::NAME@,
            B::NAME@,
            C::NAME@,
            D::NAME@,
            E::NAME@,
            F::NAME@,
            G::NAME@,
            H::NAME@,
            I::NAME@,
            J::NAME@,
            K::NAME@,
        ]);
        names
    }

    open spec fn stored(&self) -> Result<Seq<(Seq<char>, Option<StoreValueView>)>, Seq<char>> {
        let data = Ok(Seq::empty());
        let data = with_member(data, A::NAME@, self.0.stored());
        let data = with_member(data, B::NAME@, self.1.stored());
        let data = with_member(data, C::NAME@, self.2.stored());
        let data = with_member(data, D::NAME@, self.3.stored());
        let data = with_member(data, E::NAME@, self.4.stored());
        let data = with_member(data, F::NAME@, self.5.stored());
        let data = with_member(data, G::NAME@, self.6.stored());
        let data = with_member(data, H::NAME@, self.7.stored());
        let data = with_member(data, I::NAME@, self.8.stored());
        let data = with_member(data, J::NAME@, self.9.stored());
        let data = with_member(data, K::NAME@, self.10.stored());
        data
    }

    fn to_rusqlite(&self) -> (data: Result<BundleData, StorageError>) {
        let mut data: BundleData = Vec::new();
        assert(bundle_view(data@) =~= Seq::empty());
        match push_member(&mut data, A::NAME, self.0.to_rusqlite()) {
            Ok(_) => {},
            Err(error) => {
                return Err(error);
            },
        }
        match push_member(&mut data, B::NAME, self.1.to_rusqlite()) {
            Ok(_) => {},
            Err(error) => {
                return Err(error);
            },
        }
        match push_member(&mut data, C::NAME, self.2.to_rusqlite()) {
            Ok(_) => {},
            Err(error) => {
                return Err(error);
            },
        }
        match push_member(&mut data, D::NAME, self.3.to_rusqlite()) {
            Ok(_) => {},
            Err(error) => {
                return Err(error);
            },
        }
        match push_member(&mut data, E::NAME, self.4.to_rusqlite()) {
            Ok(_) => {},
            Err(error) => {
                return Err(error);
            },
        }
        match push_member(&mut data, F::NAME, self.5.to_rusqlite()) {
            Ok(_) => {},
            Err(error) => {
                return Err(error);
            },
        }
        match push_member(&mut data, G::NAME, self.6.to_rusqlite()) {
            Ok(_) => {},
            Err(error) => {
                return Err(error);
            },
        }
        match push_member(&mut data, H::NAME, self.7.to_rusqlite()) {
            Ok(_) => {},
            Err(error) => {
                return Err(error);
            },
        }
        match push_member(&mut data, I::NAME, self.8.to_rusqlite()) {
            Ok(_) => {},
            Err(error) => {
                return Err(error);
            },
        }
        match push_member(&mut data, J::NAME, self.9.to_rusqlite()) {
            Ok(_) => {},
            Err(error) => {
                return Err(error);
            },
        }
        match push_member(&mut data, K::NAME, self.10.to_rusqlite()) {
            Ok(_) => {},
            Err(error) => {
                return Err(error);
            },
        }
        Ok(data)
    }
}

impl<
    A: BundleComponent,
    B: BundleComponent,
    C: BundleComponent,
    D: BundleComponent,
    E: BundleComponent,
    F: BundleComponent,
    G: BundleComponent,
    H: BundleComponent,
    I: BundleComponent,
    J: BundleComponent,
    K: BundleComponent,
    L: BundleComponent,
> Bundle for (A, B, C, D, E, F, G, H, I, J, K, L) {
    open spec fn names() -> Seq<Seq<char>> {
        seq![
            A::NAME@,
            B::NAME@,
            C::NAME@,
            D::NAME@,
            E::NAME@,
            F::NAME@,
            G::NAME@,
            H::NAME@,
            I::NAME@,
            J::NAME@,
            K::NAME@,
            L::NAME@,
        ]
    }

    fn component_names() -> (names: Vec<&'static str>) {
        let mut names = Vec::new();
        names.push(A::NAME);
        names.push(B::NAME);
        names.push(C::NAME);
        names.push(D::NAME);
        names.push(E::NAME);
        names.push(F::NAME);
        names.push(G::NAME);
        names.push(H::NAME);
        names.push(I::NAME);
        names.push(J::NAME);
        names.push(K::NAME);
        names.push(L::NAME);
        assert(name_views(names@) =~= seq![
            A::NAME@,
            B::NAME@,
            C::NAME@,
            D::NAME@,
            E::NAME@,
            F::NAME@,
            G::NAME@,
            H::NAME@,
            I::NAME@,
            J::NAME@,
            K::NAME@,
            L::NAME@,
        ]);
        names
    }

    open spec fn stored(&self) -> Result<Seq<(Seq<char>, Option<StoreValueView>)>, Seq<char>> {
        let data = Ok(Seq::empty());
        let data = with_member(data, A::NAME@, self.0.stored());
        let data = with_member(data, B::NAME@, self.1.stored());
        let data = with_member(data, C::NAME@, self.2.stored());
        let data = with_member(data, D::NAME@, self.3.stored());
        let data = with_member(data, E::NAME@, self.4.stored());
        let data = with_member(data, F::NAME@, self.5.stored());
        let data = with_member(data, G::NAME@, self.6.stored());
        let data = with_member(data, H::NAME@, self.7.stored());
        let data = with_member(data, I::NAME@, self.8.stored());
        let data = with_member(data, J::NAME@, self.9.stored());
        let data = with_member(data, K::NAME@, self.10.stored());
        let data = with_member(data, L::NAME@, self.11.stored());
        data
    }

    fn to_rusqlite(&self) -> (data: Result<BundleData, StorageError>) {
        let mut data: BundleData = Vec::new();
        assert(bundle_view(data@) =~= Seq::empty());
        match push_member(&mut data, A::NAME, self.0.to_rusqlite()) {
            Ok(_) => {},
            Err(error) => {
                return Err(error);
            },
        }
        match push_member(&mut data, B::NAME, self.1.to_rusqlite()) {
            Ok(_) => {},
            Err(error) => {
                return Err(error);
            },
        }
        match push_member(&mut data, C::NAME, self.2.to_rusqlite()) {
            Ok(_) => {},
            Err(error) => {
                return Err(error);
            },
        }
        match push_member(&mut data, D::NAME, self.3.to_rusqlite()) {
            Ok(_) => {},
            Err(error) => {
                return Err(error);
            },
        }
        match push_member(&mut data, E::NAME, self.4.to_rusqlite()) {
            Ok(_) => {},
            Err(error) => {
                return Err(error);
            },
        }
        match push_member(&mut data, F::NAME, self.5.to_rusqlite()) {
            Ok(_) => {},
            Err(error) => {
                return Err(error);
            },
        }
        match push_member(&mut data, G::NAME, self.6.to_rusqlite()) {
            Ok(_) => {},
            Err(error) => {
                return Err(error);
            },
        }
        match push_member(&mut data, H::NAME, self.7.to_rusqlite()) {
            Ok(_) => {},
            Err(error) => {
                return Err(error);
            },
        }
        match push_member(&mut data, I::NAME, self.8.to_rusqlite()) {
            Ok(_) => {},
            Err(error) => {
                return Err(error);
            },
        }
        match push_member(&mut data, J::NAME, self.9.to_rusqlite()) {
            Ok(_) => {},
            Err(error) => {
                return Err(error);
            },
        }
        match push_member(&mut data, K::NAME, self.10.to_rusqlite()) {
            Ok(_) => {},
            Err(error) => {
                return Err(error);
            },
        }
        match push_member(&mut data, L::NAME, self.11.to_rusqlite()) {
            Ok(_) => {},
            Err(error) => {
                return Err(error);
            },
        }
        Ok(data)
    }
}

impl<
    A: BundleComponent,
    B: BundleComponent,
    C: BundleComponent,
    D: BundleComponent,
    E: BundleComponent,
    F: BundleComponent,
    G: BundleComponent,
    H: BundleComponent,
    I: BundleComponent,
    J: BundleComponent,
    K: BundleComponent,
    L: BundleComponent,
    M: BundleComponent,
> Bundle for (A, B, C, D, E, F, G, H, I, J, K, L, M) {
    open spec fn names() -> Seq<Seq<char>> {
        seq![
            A::NAME@,
            B::NAME@,
            C::NAME@,
            D::NAME@,
            E::NAME@,
            F::NAME@,
            G::NAME@,
            H::NAME@,
            I::NAME@,
            J::NAME@,
            K::NAME@,
            L::NAME@,
            M::NAME@,
        ]
    }

    fn component_names() -> (names: Vec<&'static str>) {
        let mut names = Vec::new();
        names.push(A::NAME);
        names.push(B::NAME);
        names.push(C::NAME);
        names.push(D::NAME);
        names.push(E::NAME);
        names.push(F::NAME);
        names.push(G::NAME);
        names.push(H::NAME);
        names.push(I::NAME);
        names.push(J::NAME);
        names.push(K::NAME);
        names.push(L::NAME);
        names.push(M::NAME);
        assert(name_views(names@) =~= seq![
            A::NAME@,
            B::NAME@,
            C::NAME@,
            D::NAME@,
            E::NAME@,
            F::NAME@,
            G::NAME@,
            H::NAME@,
            I::NAME@,
            J::NAME@,
            K::NAME@,
            L::NAME@,
            M::NAME@,
        ]);
        names
    }

    open spec fn stored(&self) -> Result<Seq<(Seq<char>, Option<StoreValueView>)>, Seq<char>> {
        let data = Ok(Seq::empty());
        let data = with_member(data, A::NAME@, self.0.stored());
        let data = with_member(data, B::NAME@, self.1.stored());
        let data = with_member(data, C::NAME@, self.2.stored());
        let data = with_member(data, D::NAME@, self.3.stored());
        let data = with_member(data, E::NAME@, self.4.stored());
        let data = with_member(data, F::NAME@, self.5.stored());
        let data = with_member(data, G::NAME@, self.6.stored());
        let data = with_member(data, H::NAME@, self.7.stored());
        let data = with_member(data, I::NAME@, self.8.stored());
        let data = with_member(data, J::NAME@, self.9.stored());
        let data = with_member(data, K::NAME@, self.10.stored());
        let data = with_member(data, L::NAME@, self.11.stored());
        let data = with_member(data, M::NAME@, self.12.stored());
        data
    }

    fn to_rusqlite(&self) -> (data: Result<BundleData, StorageError>) {
        let mut data: BundleData = Vec::new();
        assert(bundle_view(data@) =~= Seq::empty());
        match push_member(&mut data, A::NAME, self.0.to_rusqlite()) {
            Ok(_) => {},
            Err(error) => {
                return Err(error);
            },
        }
        match push_member(&mut data, B::NAME, self.1.to_rusqlite()) {
            Ok(_) => {},
            Err(error) => {
                return Err(error);
            },
        }
        match push_member(&mut data, C::NAME, self.2.to_rusqlite()) {
            Ok(_) => {},
            Err(error) => {
                return Err(error);
            },
        }
        match push_member(&mut data, D::NAME, self.3.to_rusqlite()) {
            Ok(_) => {},
            Err(error) => {
                return Err(error);
            },
        }
        match push_member(&mut data, E::NAME, self.4.to_rusqlite()) {
            Ok(_) => {},
            Err(error) => {
                return Err(error);
            },
        }
        match push_member(&mut data, F::NAME, self.5.to_rusqlite()) {
            Ok(_) => {},
            Err(error) => {
                return Err(error);
            },
        }
        match push_member(&mut data, G::NAME, self.6.to_rusqlite()) {
            Ok(_) => {},
            Err(error) => {
                return Err(error);
            },
        }
        match push_member(&mut data, H::NAME, self.7.to_rusqlite()) {
            Ok(_) => {},
            Err(error) => {
                return Err(error);
            },
        }
        match push_member(&mut data, I::NAME, self.8.to_rusqlite()) {
            Ok(_) => {},
            Err(error) => {
                return Err(error);
            },
        }
        match push_member(&mut data, J::NAME, self.9.to_rusqlite()) {
            Ok(_) => {},
            Err(error) => {
                return Err(error);
            },
        }
        match push_member(&mut data, K::NAME, self.10.to_rusqlite()) {
            Ok(_) => {},
            Err(error) => {
                return Err(error);
            },
        }
        match push_member(&mut data, L::NAME, self.11.to_rusqlite()) {
            Ok(_) => {},
            Err(error) => {
                return Err(error);
            },
        }
        match push_member(&mut data, M::NAME, self.12.to_rusqlite()) {
            Ok(_) => {},
            Err(error) => {
                return Err(error);
            },
        }
        Ok(data)
    }
}

impl<
    A: BundleComponent,
    B: BundleComponent,
    C: BundleComponent,
    D: BundleComponent,
    E: BundleComponent,
    F: BundleComponent,
    G: BundleComponent,
    H: BundleComponent,
    I: BundleComponent,
    J: BundleComponent,
    K: BundleComponent,
    L: BundleComponent,
    M: BundleComponent,
    O: BundleComponent,
> Bundle for (A, B, C, D, E, F, G, H, I, J, K, L, M, O) {
    open spec fn names() -> Seq<Seq<char>> {
        seq![
            A::NAME@,
            B::NAME@,
            C::NAME@,
            D::NAME@,
            E::NAME@,
            F::NAME@,
            G::NAME@,
            H::NAME@,
            I::NAME@,
            J::NAME@,
            K::NAME@,
            L::NAME@,
            M::NAME@,
            O::NAME@,
        ]
    }

    fn component_names() -> (names: Vec<&'static str>) {
        let mut names = Vec::new();
        names.push(A::NAME);
        names.push(B::NAME);
        names.push(C::NAME);
        names.push(D::NAME);
        names.push(E::NAME);
        names.push(F::NAME);
        names.push(G::NAME);
        names.push(H::NAME);
        names.push(I::NAME);
        names.push(J::NAME);
        names.push(K::NAME);
        names.push(L::NAME);
        names.push(M::NAME);
        names.push(O::NAME);
        assert(name_views(names@) =~= seq![
            A::NAME@,
            B::NAME@,
            C::NAME@,
            D::NAME@,
            E::NAME@,
            F::NAME@,
            G::NAME@,
            H::NAME@,
            I::NAME@,
            J::NAME@,
            K::NAME@,
            L::NAME@,
            M::NAME@,
            O::NAME@,
        ]);
        names
    }

    open spec fn stored(&self) -> Result<Seq<(Seq<char>, Option<StoreValueView>)>, Seq<char>> {
        let data = Ok(Seq::empty());
        let data = with_member(data, A::NAME@, self.0.stored());
        let data = with_member(data, B::NAME@, self.1.stored());
        let data = with_member(data, C::NAME@, self.2.stored());
        let data = with_member(data, D::NAME@, self.3.stored());
        let data = with_member(data, E::NAME@, self.4.stored());
        let data = with_member(data, F::NAME@, self.5.stored());
        let data = with_member(data, G::NAME@, self.6.stored());
        let data = with_member(data, H::NAME@, self.7.stored());
        let data = with_member(data, I::NAME@, self.8.stored());
        let data = with_member(data, J::NAME@, self.9.stored());
        let data = with_member(data, K::NAME@, self.10.stored());
        let data = with_member(data, L::NAME@, self.11.stored());
        let data = with_member(data, M::NAME@, self.12.stored());
        let data = with_member(data, O::NAME@, self.13.stored());
        data
    }

    fn to_rusqlite(&self) -> (data: Result<BundleData, StorageError>) {
        let mut data: BundleData = Vec::new();
        assert(bundle_view(data@) =~= Seq::empty());
        match push_member(&mut data, A::NAME, self.0.to_rusqlite()) {
            Ok(_) => {},
            Err(error) => {
                return Err(error);
            },
        }
        match push_member(&mut data, B::NAME, self.1.to_rusqlite()) {
            Ok(_) => {},
            Err(error) => {
                return Err(error);
            },
        }
        match push_member(&mut data, C::NAME, self.2.to_rusqlite()) {
            Ok(_) => {},
            Err(error) => {
                return Err(error);
            },
        }
        match push_member(&mut data, D::NAME, self.3.to_rusqlite()) {
            Ok(_) => {},
            Err(error) => {
                return Err(error);
            },
        }
        match push_member(&mut data, E::NAME, self.4.to_rusqlite()) {
            Ok(_) => {},
            Err(error) => {
                return Err(error);
            },
        }
        match push_member(&mut data, F::NAME, self.5.to_rusqlite()) {
            Ok(_) => {},
            Err(error) => {
                return Err(error);
            },
        }
        match push_member(&mut data, G::NAME, self.6.to_rusqlite()) {
            Ok(_) => {},
            Err(error) => {
                return Err(error);
            },
        }
        match push_member(&mut data, H::NAME, self.7.to_rusqlite()) {
            Ok(_) => {},
            Err(error) => {
                return Err(error);
            },
        }
        match push_member(&mut data, I::NAME, self.8.to_rusqlite()) {
            Ok(_) => {},
            Err(error) => {
                return Err(error);
            },
        }
        match push_member(&mut data, J::NAME, self.9.to_rusqlite()) {
            Ok(_) => {},
            Err(error) => {
                return Err(error);
            },
        }
        match push_member(&mut data, K::NAME, self.10.to_rusqlite()) {
            Ok(_) => {},
            Err(error) => {
                return Err(error);
            },
        }
        match push_member(&mut data, L::NAME, self.11.to_rusqlite()) {
            Ok(_) => {},
            Err(error) => {
                return Err(error);
            },
        }
        match push_member(&mut data, M::NAME, self.12.to_rusqlite()) {
            Ok(_) => {},
            Err(error) => {
                return Err(error);
            },
        }
        match push_member(&mut data, O::NAME, self.13.to_rusqlite()) {
            Ok(_) => {},
            Err(error) => {
                return Err(error);
            },
        }
        Ok(data)
    }
}

impl<
    A: BundleComponent,
    B: BundleComponent,
    C: BundleComponent,
    D: BundleComponent,
    E: BundleComponent,
    F: BundleComponent,
    G: BundleComponent,
    H: BundleComponent,
    I: BundleComponent,
    J: BundleComponent,
    K: BundleComponent,
    L: BundleComponent,
    M: BundleComponent,
    O: BundleComponent,
    P: BundleComponent,
> Bundle for (A, B, C, D, E, F, G, H, I, J, K, L, M, O, P) {
    open spec fn names() -> Seq<Seq<char>> {
        seq![
            A::NAME@,
            B::NAME@,
            C::NAME@,
            D::NAME@,
            E::NAME@,
            F::NAME@,
            G::NAME@,
            H::NAME@,
            I::NAME@,
            J::NAME@,
            K::NAME@,
            L::NAME@,
            M::NAME@,
            O::NAME@,
            P::NAME@,
        ]
    }

    fn component_names() -> (names: Vec<&'static str>) {
        let mut names = Vec::new();
        names.push(A::NAME);
        names.push(B::NAME);
        names.push(C::NAME);
        names.push(D::NAME);
        names.push(E::NAME);
        names.push(F::NAME);
        names.push(G::NAME);
        names.push(H::NAME);
        names.push(I::NAME);
        names.push(J::NAME);
        names.push(K::NAME);
        names.push(L::NAME);
        names.push(M::NAME);
        names.push(O::NAME);
        names.push(P::NAME);
        assert(name_views(names@) =~= seq![
            A::NAME@,
            B::NAME@,
            C::NAME@,
            D::NAME@,
            E::NAME@,
            F::NAME@,
            G::NAME@,
            H::NAME@,
            I::NAME@,
            J::NAME@,
            K::NAME@,
            L::NAME@,
            M::NAME@,
            O::NAME@,
            P::NAME@,
        ]);
        names
    }

    open spec fn stored(&self) -> Result<Seq<(Seq<char>, Option<StoreValueView>)>, Seq<char>> {
        let data = Ok(Seq::empty());
        let data = with_member(data, A::NAME@, self.0.stored());
        let data = with_member(data, B::NAME@, self.1.stored());
        let data = with_member(data, C::NAME@, self.2.stored());
        let data = with_member(data, D::NAME@, self.3.stored());
        let data = with_member(data, E::NAME@, self.4.stored());
        let data = with_member(data, F::NAME@, self.5.stored());
        let data = with_member(data, G::NAME@, self.6.stored());
        let data = with_member(data, H::NAME@, self.7.stored());
        let data = with_member(data, I::NAME@, self.8.stored());
        let data = with_member(data, J::NAME@, self.9.stored());
        let data = with_member(data, K::NAME@, self.10.stored());
        let data = with_member(data, L::NAME@, self.11.stored());
        let data = with_member(data, M::NAME@, self.12.stored());
        let data = with_member(data, O::NAME@, self.13.stored());
        let data = with_member(data, P::NAME@, self.14.stored());
        data
    }

    fn to_rusqlite(&self) -> (data: Result<BundleData, StorageError>) {
        let mut data: BundleData = Vec::new();
        assert(bundle_view(data@) =~= Seq::empty());
        match push_member(&mut data, A::NAME, self.0.to_rusqlite()) {
            Ok(_) => {},
            Err(error) => {
                return Err(error);
            },
        }
        match push_member(&mut data, B::NAME, self.1.to_rusqlite()) {
            Ok(_) => {},
            Err(error) => {
                return Err(error);
            },
        }
        match push_member(&mut data, C::NAME, self.2.to_rusqlite()) {
            Ok(_) => {},
            Err(error) => {
                return Err(error);
            },
        }
        match push_member(&mut data, D::NAME, self.3.to_rusqlite()) {
            Ok(_) => {},
            Err(error) => {
                return Err(error);
            },
        }
        match push_member(&mut data, E::NAME, self.4.to_rusqlite()) {
            Ok(_) => {},
            Err(error) => {
                return Err(error);
            },
        }
        match push_member(&mut data, F::NAME, self.5.to_rusqlite()) {
            Ok(_) => {},
            Err(error) => {
                return Err(error);
            },
        }
        match push_member(&mut data, G::NAME, self.6.to_rusqlite()) {
            Ok(_) => {},
            Err(error) => {
                return Err(error);
            },
        }
        match push_member(&mut data, H::NAME, self.7.to_rusqlite()) {
            Ok(_) => {},
            Err(error) => {
                return Err(error);
            },
        }
        match push_member(&mut data, I::NAME, self.8.to_rusqlite()) {
            Ok(_) => {},
            Err(error) => {
                return Err(error);
            },
        }
        match push_member(&mut data, J::NAME, self.9.to_rusqlite()) {
            Ok(_) => {},
            Err(error) => {
                return Err(error);
            },
        }
        match push_member(&mut data, K::NAME, self.10.to_rusqlite()) {
            Ok(_) => {},
            Err(error) => {
                return Err(error);
            },
        }
        match push_member(&mut data, L::NAME, self.11.to_rusqlite()) {
            Ok(_) => {},
            Err(error) => {
                return Err(error);
            },
        }
        match push_member(&mut data, M::NAME, self.12.to_rusqlite()) {
            Ok(_) => {},
            Err(error) => {
                return Err(error);
            },
        }
        match push_member(&mut data, O::NAME, self.13.to_rusqlite()) {
            Ok(_) => {},
            Err(error) => {
                return Err(error);
            },
        }
        match push_member(&mut data, P::NAME, self.14.to_rusqlite()) {
            Ok(_) => {},
            Err(error) => {
                return Err(error);
            },
        }
        Ok(data)
    }
}

impl<
    A: BundleComponent,
    B: BundleComponent,
    C: BundleComponent,
    D: BundleComponent,
    E: BundleComponent,
    F: BundleComponent,
    G: BundleComponent,
    H: BundleComponent,
    I: BundleComponent,
    J: BundleComponent,
    K: BundleComponent,
    L: BundleComponent,
    M: BundleComponent,
    O: BundleComponent,
    P: BundleComponent,
    Q: BundleComponent,
> Bundle for (A, B, C, D, E, F, G, H, I, J, K, L, M, O, P, Q) {
    open spec fn names() -> Seq<Seq<char>> {
        seq![
            A::NAME@,
            B::NAME@,
            C::NAME@,
            D::NAME@,
            E::NAME@,
            F::NAME@,
            G::NAME@,
            H::NAME@,
            I::NAME@,
            J::NAME@,
            K::NAME@,
            L::NAME@,
            M::NAME@,
            O::NAME@,
            P::NAME@,
            Q::NAME@,
        ]
    }

    fn component_names() -> (names: Vec<&'static str>) {
        let mut names = Vec::new();
        names.push(A::NAME);
        names.push(B::NAME);
        names.push(C::NAME);
        names.push(D::NAME);
        names.push(E::NAME);
        names.push(F::NAME);
        names.push(G::NAME);
        names.push(H::NAME);
        names.push(I::NAME);
        names.push(J::NAME);
        names.push(K::NAME);
        names.push(L::NAME);
        names.push(M::NAME);
        names.push(O::NAME);
        names.push(P::NAME);
        names.push(Q::NAME);
        assert(name_views(names@) =~= seq![
            A::NAME@,
            B::NAME@,
            C::NAME@,
            D::NAME@,
            E::NAME@,
            F::NAME@,
            G::NAME@,
            H::NAME@,
            I::NAME@,
            J::NAME@,
            K::NAME@,
            L::NAME@,
            M::NAME@,
            O::NAME@,
            P::NAME@,
            Q::NAME@,
        ]);
        names
    }

    open spec fn stored(&self) -> Result<Seq<(Seq<char>, Option<StoreValueView>)>, Seq<char>> {
        let data = Ok(Seq::empty());
        let data = with_member(data, A::NAME@, self.0.stored());
        let data = with_member(data, B::NAME@, self.1.stored());
        let data = with_member(data, C::NAME@, self.2.stored());
        let data = with_member(data, D::NAME@, self.3.stored());
        let data = with_member(data, E::NAME@, self.4.stored());
        let data = with_member(data, F::NAME@, self.5.stored());
        let data = with_member(data, G::NAME@, self.6.stored());
        let data = with_member(data, H::NAME@, self.7.stored());
        let data = with_member(data, I::NAME@, self.8.stored());
        let data = with_member(data, J::NAME@, self.9.stored());
        let data = with_member(data, K::NAME@, self.10.stored());
        let data = with_member(data, L::NAME@, self.11.stored());
        let data = with_member(data, M::NAME@, self.12.stored());
        let data = with_member(data, O::NAME@, self.13.stored());
        let data = with_member(data, P::NAME@, self.14.stored());
        let data = with_member(data, Q::NAME@, self.15.stored());
        data
    }

    fn to_rusqlite(&self) -> (data: Result<BundleData, StorageError>) {
        let mut data: BundleData = Vec::new();
        assert(bundle_view(data@) =~= Seq::empty());
        match push_member(&mut data, A::NAME, self.0.to_rusqlite()) {
            Ok(_) => {},
            Err(error) => {
                return Err(error);
            },
        }
        match push_member(&mut data, B::NAME, self.1.to_rusqlite()) {
            Ok(_) => {},
            Err(error) => {
                return Err(error);
            },
        }
        match push_member(&mut data, C::NAME, self.2.to_rusqlite()) {
            Ok(_) => {},
            Err(error) => {
                return Err(error);
            },
        }
        match push_member(&mut data, D::NAME, self.3.to_rusqlite()) {
            Ok(_) => {},
            Err(error) => {
                return Err(error);
            },
        }
        match push_member(&mut data, E::NAME, self.4.to_rusqlite()) {
            Ok(_) => {},
            Err(error) => {
                return Err(error);
            },
        }
        match push_member(&mut data, F::NAME, self.5.to_rusqlite()) {
            Ok(_) => {},
            Err(error) => {
                return Err(error);
            },
        }
        match push_member(&mut data, G::NAME, self.6.to_rusqlite()) {
            Ok(_) => {},
            Err(error) => {
                return Err(error);
            },
        }
        match push_member(&mut data, H::NAME, self.7.to_rusqlite()) {
            Ok(_) => {},
            Err(error) => {
                return Err(error);
            },
        }
        match push_member(&mut data, I::NAME, self.8.to_rusqlite()) {
            Ok(_) => {},
            Err(error) => {
                return Err(error);
            },
        }
        match push_member(&mut data, J::NAME, self.9.to_rusqlite()) {
            Ok(_) => {},
            Err(error) => {
                return Err(error);
            },
        }
        match push_member(&mut data, K::NAME, self.10.to_rusqlite()) {
            Ok(_) => {},
            Err(error) => {
                return Err(error);
            },
        }
        match push_member(&mut data, L::NAME, self.11.to_rusqlite()) {
            Ok(_) => {},
            Err(error) => {
                return Err(error);
            },
        }
        match push_member(&mut data, M::NAME, self.12.to_rusqlite()) {
            Ok(_) => {},
            Err(error) => {
                return Err(error);
            },
        }
        match push_member(&mut data, O::NAME, self.13.to_rusqlite()) {
            Ok(_) => {},
            Err(error) => {
                return Err(error);
            },
        }
        match push_member(&mut data, P::NAME, self.14.to_rusqlite()) {
            Ok(_) => {},
            Err(error) => {
                return Err(error);
            },
        }
        match push_member(&mut data, Q::NAME, self.15.to_rusqlite()) {
            Ok(_) => {},
            Err(error) => {
                return Err(error);
            },
        }
        Ok(data)
    }
}

} // verus!
