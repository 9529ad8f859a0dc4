use vstd::prelude::*;

verus! {

/// The persisted configuration: the router credentials and the display-name
/// override table. The table maps an override key — a device's MAC address or
/// its original display name — to the replacement display name; its keys are
/// unique (`wf`), and lookup is case-sensitive exact match.
#[derive(Debug, PartialEq)]
pub struct Config {
    pub username: String,
    pub password: String,
    pub device_name_overrides: Vec<(String, String)>,
}

/// The mathematical value of a `Config`.
#[verifier::ext_equal]
pub ghost struct ConfigV {
    pub username: Seq<char>,
    pub password: Seq<char>,
    pub device_name_overrides: Seq<(Seq<char>, Seq<char>)>,
}

impl View for Config {
    type V = ConfigV;

    open spec fn view(&self) -> ConfigV {
        ConfigV {
            username: self.username@,
            password: self.password@,
            device_name_overrides: self.device_name_overrides@.map_values(
                |p: (String, String)| (p.0@, p.1@),
            ),
        }
    }
}

/// The value of the first entry whose key matches, if any.
pub open spec fn spec_lookup(entries: Seq<(Seq<char>, Seq<char>)>, key: Seq<char>) -> Option<
    Seq<char>,
>
    decreases entries.len(),
{
    if entries.len() == 0 {
        None
    } else if entries[0].0 == key {
        Some(entries[0].1)
    } else {
        spec_lookup(entries.drop_first(), key)
    }
}

/// Unique keys: no two entries share an override key.
pub open spec fn unique_keys(entries: Seq<(Seq<char>, Seq<char>)>) -> bool {
    forall|i: int, j: int|
        0 <= i < j < entries.len() ==> (#[trigger] entries[i]).0 != (#[trigger] entries[j]).0
}

impl Config {
    /// The structural invariant: override keys are unique.
    pub open spec fn wf(&self) -> bool {
        unique_keys(self@.device_name_overrides)
    }

    /// The empty configuration: blank credentials, no overrides.
    pub fn empty() -> (r: Config)
        ensures
            r@.username == Seq::<char>::empty(),
            r@.password == Seq::<char>::empty(),
            r@.device_name_overrides == Seq::<(Seq<char>, Seq<char>)>::empty(),
            r.wf(),
    {
        let r = Config { username: String::new(), password: String::new(), device_name_overrides: Vec::new() };
        proof {
            assert(r@.device_name_overrides =~= Seq::<(Seq<char>, Seq<char>)>::empty());
        }
        r
    }

    /// Replaces the stored username; everything else is untouched.
    pub fn set_username(&mut self, value: &str)
        ensures
            final(self)@.username == value@,
            final(self)@.password == old(self)@.password,
            final(self)@.device_name_overrides == old(self)@.device_name_overrides,
    {
        self.username = value.to_owned();
    }

    /// Replaces the stored password; everything else is untouched.
    pub fn set_password(&mut self, value: &str)
        ensures
            final(self)@.password == value@,
            final(self)@.username == old(self)@.username,
            final(self)@.device_name_overrides == old(self)@.device_name_overrides,
    {
        self.password = value.to_owned();
    }

    /// The replacement name configured for `key`, if any.
    pub fn lookup_override(&self, key: &String) -> (r: Option<&String>)
        ensures
            match r {
                Some(v) => spec_lookup(self@.device_name_overrides, key@) == Some(v@),
                None => spec_lookup(self@.device_name_overrides, key@) is None,
            },
    {
        let n = self.device_name_overrides.len();
        proof {
            assert(self@.device_name_overrides.skip(0) =~= self@.device_name_overrides);
        }
        for i in 0..n
            invariant
                n == self.device_name_overrides.len(),
                spec_lookup(self@.device_name_overrides, key@) == spec_lookup(
                    self@.device_name_overrides.skip(i as int),
                    key@,
                ),
        {
            proof {
                assert(self@.device_name_overrides.skip(i as int).drop_first()
                    =~= self@.device_name_overrides.skip(i + 1));
                assert(self@.device_name_overrides.skip(i as int)[0]
                    == self@.device_name_overrides[i as int]);
            }
            if self.device_name_overrides[i].0 == *key {
                return Some(&self.device_name_overrides[i].1);
            }
        }
        proof {
            assert(self@.device_name_overrides.skip(self@.device_name_overrides.len() as int)
                =~= Seq::<(Seq<char>, Seq<char>)>::empty());
        }
        None
    }

    /// Inserts or replaces the override for `key`. Afterwards `key` resolves
    /// to `value` and every other key resolves as before.
    pub fn set_override(&mut self, key: String, value: String)
        requires
            old(self).wf(),
        ensures
            final(self).wf(),
            final(self)@.username == old(self)@.username,
            final(self)@.password == old(self)@.password,
            spec_lookup(final(self)@.device_name_overrides, key@) == Some(value@),
            forall|k: Seq<char>|
                k != key@ ==> #[trigger] spec_lookup(final(self)@.device_name_overrides, k)
                    == spec_lookup(old(self)@.device_name_overrides, k),
    {
        let ghost old_entries = self@.device_name_overrides;
        proof {
            assert forall|j: int| 0 <= j < old_entries.len() implies #[trigger] old_entries[j] == (
                self.device_name_overrides@[j].0@,
                self.device_name_overrides@[j].1@,
            ) by {}
        }
        match find_key_index(&self.device_name_overrides, &key) {
            Some(i) => {
                let replaced = self.device_name_overrides[i].0.clone();
                self.device_name_overrides.set(i, (replaced, value));
                proof {
                    let entries = self@.device_name_overrides;
                    assert(entries =~= old_entries.update(i as int, (key@, value@)));
                    lemma_lookup_update(old_entries, i as int, key@, value@);
                }
            },
            None => {
                self.device_name_overrides.push((key, value));
                proof {
                    let entries = self@.device_name_overrides;
                    assert(entries =~= old_entries.push((key@, value@)));
                    lemma_lookup_push(old_entries, key@, value@);
                    assert forall|a: int, b: int| 0 <= a < b < entries.len() implies (
                    #[trigger] entries[a]).0 != (#[trigger] entries[b]).0 by {}
                    assert forall|k: Seq<char>| k != key@ implies #[trigger] spec_lookup(entries, k)
                        == spec_lookup(old_entries, k) by {
                        lemma_lookup_push_other(old_entries, key@, value@, k);
                    }
                }
            },
        }
    }

    /// Removes the override for `key`, if one exists. Afterwards `key`
    /// resolves to nothing and every other key resolves as before.
    pub fn clear_override(&mut self, key: &String)
        requires
            old(self).wf(),
        ensures
            final(self).wf(),
            final(self)@.username == old(self)@.username,
            final(self)@.password == old(self)@.password,
            spec_lookup(final(self)@.device_name_overrides, key@) is None,
            forall|k: Seq<char>|
                k != key@ ==> #[trigger] spec_lookup(final(self)@.device_name_overrides, k)
                    == spec_lookup(old(self)@.device_name_overrides, k),
    {
        let ghost old_entries = self@.device_name_overrides;
        proof {
            assert forall|j: int| 0 <= j < old_entries.len() implies #[trigger] old_entries[j] == (
                self.device_name_overrides@[j].0@,
                self.device_name_overrides@[j].1@,
            ) by {}
        }
        match find_key_index(&self.device_name_overrides, key) {
            Some(i) => {
                self.device_name_overrides.remove(i);
                proof {
                    let entries = self@.device_name_overrides;
                    assert(entries =~= old_entries.remove(i as int));
                    lemma_lookup_remove(old_entries, i as int, key@);
                }
            },
            None => {
                proof {
                    lemma_lookup_absent(old_entries, key@);
                }
            },
        }
    }
}

/// The index of the first entry whose key is `key`, if any.
fn find_key_index(v: &Vec<(String, String)>, key: &String) -> (r: Option<usize>)
    ensures
        match r {
            Some(i) => i < v.len() && v@[i as int].0@ == key@ && forall|j: int|
                0 <= j < i ==> (#[trigger] v@[j]).0@ != key@,
            None => forall|j: int| 0 <= j < v.len() ==> (#[trigger] v@[j]).0@ != key@,
        },
{
    let n = v.len();
    for i in 0..n
        invariant
            n == v.len(),
            forall|j: int| 0 <= j < i ==> (#[trigger] v@[j]).0@ != key@,
    {
        if v[i].0 == *key {
            return Some(i);
        }
    }
    None
}

/// If no entry at all has `key`, the lookup of `key` fails.
proof fn lemma_lookup_absent(entries: Seq<(Seq<char>, Seq<char>)>, key: Seq<char>)
    requires
        forall|j: int| 0 <= j < entries.len() ==> (#[trigger] entries[j]).0 != key,
    ensures
        spec_lookup(entries, key) is None,
    decreases entries.len(),
{
    if entries.len() > 0 {
        lemma_lookup_absent(entries.drop_first(), key);
    }
}

/// Replacing the value at the first entry with key `key` makes `key` resolve
/// to the new value and leaves every other key alone.
proof fn lemma_lookup_update(
    entries: Seq<(Seq<char>, Seq<char>)>,
    i: int,
    key: Seq<char>,
    value: Seq<char>,
)
    requires
        0 <= i < entries.len(),
        entries[i].0 == key,
        unique_keys(entries),
    ensures
        unique_keys(entries.update(i, (key, value))),
        spec_lookup(entries.update(i, (key, value)), key) == Some(value),
        forall|k: Seq<char>|
            k != key ==> #[trigger] spec_lookup(entries.update(i, (key, value)), k)
                == spec_lookup(entries, k),
    decreases i,
{
    let updated = entries.update(i, (key, value));
    assert forall|a: int, b: int| 0 <= a < b < updated.len() implies (#[trigger] updated[a]).0
        != (#[trigger] updated[b]).0 by {
        assert(entries[a].0 == updated[a].0 && entries[b].0 == updated[b].0);
    }
    if i == 0 {
        assert(updated[0].0 == key);
        assert forall|k: Seq<char>| k != key implies #[trigger] spec_lookup(updated, k)
            == spec_lookup(entries, k) by {
            assert(updated.drop_first() =~= entries.drop_first());
        }
    } else {
        let tail = entries.drop_first();
        assert(entries[0].0 != key);
        assert(updated[0] == entries[0]);
        assert(tail[i - 1] == entries[i]);
        assert(unique_keys(tail)) by {
            assert forall|a: int, b: int| 0 <= a < b < tail.len() implies (#[trigger] tail[a]).0
                != (#[trigger] tail[b]).0 by {
                assert(tail[a] == entries[a + 1] && tail[b] == entries[b + 1]);
            }
        }
        assert(updated.drop_first() =~= tail.update(i - 1, (key, value)));
        lemma_lookup_update(tail, i - 1, key, value);
        assert forall|k: Seq<char>| k != key implies #[trigger] spec_lookup(updated, k)
            == spec_lookup(entries, k) by {
            if updated[0].0 != k {
                assert(spec_lookup(updated, k) == spec_lookup(updated.drop_first(), k));
                assert(spec_lookup(entries, k) == spec_lookup(tail, k));
            }
        }
    }
}

/// Appending an entry for a fresh key makes that key resolve to its value.
proof fn lemma_lookup_push(entries: Seq<(Seq<char>, Seq<char>)>, key: Seq<char>, value: Seq<char>)
    requires
        forall|j: int| 0 <= j < entries.len() ==> (#[trigger] entries[j]).0 != key,
    ensures
        spec_lookup(entries.push((key, value)), key) == Some(value),
    decreases entries.len(),
{
    let pushed = entries.push((key, value));
    if entries.len() == 0 {
        assert(pushed[0].0 == key);
    } else {
        assert(pushed[0] == entries[0]);
        assert(pushed.drop_first() =~= entries.drop_first().push((key, value)));
        lemma_lookup_push(entries.drop_first(), key, value);
    }
}

/// Appending an entry for one key does not change the lookup of another.
proof fn lemma_lookup_push_other(
    entries: Seq<(Seq<char>, Seq<char>)>,
    key: Seq<char>,
    value: Seq<char>,
    k: Seq<char>,
)
    requires
        k != key,
    ensures
        spec_lookup(entries.push((key, value)), k) == spec_lookup(entries, k),
    decreases entries.len(),
{
    let pushed = entries.push((key, value));
    if entries.len() == 0 {
        assert(pushed[0].0 == key);
        assert forall|j: int| 0 <= j < pushed.len() implies (#[trigger] pushed[j]).0 != k by {}
        lemma_lookup_absent(pushed, k);
        lemma_lookup_absent(entries, k);
    } else {
        assert(pushed[0] == entries[0]);
        assert(pushed.drop_first() =~= entries.drop_first().push((key, value)));
        lemma_lookup_push_other(entries.drop_first(), key, value, k);
    }
}

/// Removing the only entry with key `key` makes that key resolve to nothing
/// and leaves every other key alone.
proof fn lemma_lookup_remove(entries: Seq<(Seq<char>, Seq<char>)>, i: int, key: Seq<char>)
    requires
        0 <= i < entries.len(),
        entries[i].0 == key,
        unique_keys(entries),
    ensures
        unique_keys(entries.remove(i)),
        spec_lookup(entries.remove(i), key) is None,
        forall|k: Seq<char>|
            k != key ==> #[trigger] spec_lookup(entries.remove(i), k) == spec_lookup(entries, k),
    decreases i,
{
    let removed = entries.remove(i);
    assert forall|a: int, b: int| 0 <= a < b < removed.len() implies (#[trigger] removed[a]).0
        != (#[trigger] removed[b]).0 by {
        let a0 = if a < i { a } else { a + 1 };
        let b0 = if b < i { b } else { b + 1 };
        assert(removed[a] == entries[a0] && removed[b] == entries[b0]);
    }
    if i == 0 {
        assert(removed =~= entries.drop_first());
        assert forall|j: int| 0 <= j < removed.len() implies (#[trigger] removed[j]).0 != key by {
            assert(removed[j] == entries[j + 1]);
        }
        lemma_lookup_absent(removed, key);
    } else {
        let tail = entries.drop_first();
        assert(entries[0].0 != key);
        assert(removed[0] == entries[0]);
        assert(tail[i - 1] == entries[i]);
        assert(removed.drop_first() =~= tail.remove(i - 1));
        assert(unique_keys(tail)) by {
            assert forall|a: int, b: int| 0 <= a < b < tail.len() implies (#[trigger] tail[a]).0
                != (#[trigger] tail[b]).0 by {
                assert(tail[a] == entries[a + 1] && tail[b] == entries[b + 1]);
            }
        }
        lemma_lookup_remove(tail, i - 1, key);
        assert forall|k: Seq<char>| k != key implies #[trigger] spec_lookup(removed, k)
            == spec_lookup(entries, k) by {
            if removed[0].0 != k {
                assert(spec_lookup(removed, k) == spec_lookup(removed.drop_first(), k));
                assert(spec_lookup(entries, k) == spec_lookup(tail, k));
            }
        }
    }
}

/// A successful lookup names a key that some entry holds.
pub proof fn lemma_lookup_found(entries: Seq<(Seq<char>, Seq<char>)>, key: Seq<char>)
    requires
        spec_lookup(entries, key) is Some,
    ensures
        exists|a: int| 0 <= a < entries.len() && (#[trigger] entries[a]).0 == key,
    decreases entries.len(),
{
    if entries.len() > 0 {
        if entries[0].0 == key {
            assert(0 <= 0 < entries.len() && entries[0].0 == key);
        } else {
            lemma_lookup_found(entries.drop_first(), key);
            let a = choose|a: int|
                0 <= a < entries.drop_first().len() && (#[trigger] entries.drop_first()[a]).0
                    == key;
            assert(entries[a + 1] == entries.drop_first()[a]);
        }
    }
}

/// A key that some entry holds is found by lookup.
pub proof fn lemma_key_found_lookup(entries: Seq<(Seq<char>, Seq<char>)>, a: int, key: Seq<char>)
    requires
        0 <= a < entries.len(),
        entries[a].0 == key,
    ensures
        spec_lookup(entries, key) is Some,
    decreases a,
{
    if entries[0].0 != key {
        assert(entries.drop_first()[a - 1] == entries[a]);
        lemma_key_found_lookup(entries.drop_first(), a - 1, key);
    }
}

} // verus!
