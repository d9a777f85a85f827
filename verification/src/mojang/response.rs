//! The session server's answer about a player.
use vstd::prelude::*;

verus! {

/// A player's profile as the session server returns it.
pub struct MojangResponse {
    /// The player's UUID without dashes
    pub id: String,
    /// The player's name
    pub name: String,
    pub properties: Vec<Properties>,
}

/// A signed profile property, such as the textures.
pub struct Properties {
    pub name: String,
    pub value: String,
    pub signature: String,
}

impl View for Properties {
    type V = (Seq<char>, Seq<char>, Seq<char>);

    open spec fn view(&self) -> Self::V {
        (self.name@, self.value@, self.signature@)
    }
}

impl View for MojangResponse {
    type V = (Seq<char>, Seq<char>, Seq<(Seq<char>, Seq<char>, Seq<char>)>);

    open spec fn view(&self) -> Self::V {
        (self.id@, self.name@, self.properties@.map_values(|p: Properties| p@))
    }
}

impl Clone for Properties {
    fn clone(&self) -> (r: Self)
        ensures
            r@ == self@,
    {
        Properties {
            name: self.name.clone(),
            value: self.value.clone(),
            signature: self.signature.clone(),
        }
    }
}

impl Clone for MojangResponse {
    fn clone(&self) -> (r: Self)
        ensures
            r@ == self@,
    {
        let mut properties: Vec<Properties> = Vec::new();
        let mut i: usize = 0;
        while i < self.properties.len()
            invariant
                i <= self.properties@.len(),
                properties@.len() == i,
                forall|j: int| 0 <= j < i ==> #[trigger] properties@[j]@ == self.properties@[j]@,
            decreases self.properties@.len() - i,
        {
            let p = self.properties[i].clone();
            properties.push(p);
            i = i + 1;
        }
        assert(properties@.map_values(|p: Properties| p@) =~= self.properties@.map_values(
            |p: Properties| p@,
        ));
        MojangResponse { id: self.id.clone(), name: self.name.clone(), properties }
    }
}

} // verus!
