use vstd::prelude::*;

verus! {

/// One audio endpoint as the device picker shows it.
#[derive(Debug, Clone)]
pub struct AudioDevice {
    pub name: String,
    pub is_default: bool,
    /// `"input"` or `"output"`
    pub device_type: String,
}

/// Abstract value of an [`AudioDevice`].
pub struct DeviceView {
    pub name: Seq<char>,
    pub is_default: bool,
    pub device_type: Seq<char>,
}

impl View for AudioDevice {
    type V = DeviceView;

    open spec fn view(&self) -> DeviceView {
        DeviceView { name: self.name@, is_default: self.is_default, device_type: self.device_type@ }
    }
}

/// What the host reports for one direction: the name of its default
/// endpoint (if it has one whose name resolves), and the endpoints'
/// names, or `None` when the endpoint list itself could not be opened.
/// An endpoint whose name could not be resolved is `None` in the list.
pub struct EndpointListing {
    pub default_name: Option<String>,
    pub names: Option<Vec<Option<String>>>,
}

/// Whether `name` is the reported default.
pub open spec fn is_default_name(default_name: Option<String>, name: Seq<char>) -> bool {
    match default_name {
        Some(d) => d@ == name,
        None => false,
    }
}

/// Catalog entries for the first endpoints of a listing, in order, skipping
/// those whose name did not resolve.
pub open spec fn entries_of(
    names: Seq<Option<String>>,
    default_name: Option<String>,
    device_type: Seq<char>,
) -> Seq<DeviceView>
    decreases names.len(),
{
    if names.len() == 0 {
        Seq::empty()
    } else {
        let prev = entries_of(names.drop_last(), default_name, device_type);
        match names.last() {
            Some(n) => prev.push(
                DeviceView {
                    name: n@,
                    is_default: is_default_name(default_name, n@),
                    device_type,
                },
            ),
            None => prev,
        }
    }
}

/// Catalog entries of one direction; a listing that could not be opened
/// contributes nothing.
pub open spec fn listing_entries(l: EndpointListing, device_type: Seq<char>) -> Seq<DeviceView> {
    match l.names {
        Some(v) => entries_of(v@, l.default_name, device_type),
        None => Seq::empty(),
    }
}

/// The views of a list of devices.
pub open spec fn views_of(v: Seq<AudioDevice>) -> Seq<DeviceView> {
    v.map_values(|d: AudioDevice| d@)
}

fn push_entries(
    out: &mut Vec<AudioDevice>,
    listing: &EndpointListing,
    device_type: &str,
)
    ensures
        views_of(final(out)@) == views_of(old(out)@) + listing_entries(*listing, device_type@),
{
    match &listing.names {
        None => {
            assert(views_of(old(out)@) + Seq::<DeviceView>::empty() =~= views_of(old(out)@));
        },
        Some(names) => {
            let ghost start = out@;
            let mut i: usize = 0;
            while i < names.len()
                invariant
                    i <= names@.len(),
                    listing.names == Some(*names),
                    views_of(out@) == views_of(start) + entries_of(
                        names@.subrange(0, i as int),
                        listing.default_name,
                        device_type@,
                    ),
                decreases names@.len() - i,
            {
                let ghost before = out@;
                let ghost pre = names@.subrange(0, i as int);
                let ghost next = names@.subrange(0, i as int + 1);
                assert(next.drop_last() =~= pre);
                assert(next.last() == names@[i as int]);
                match &names[i] {
                    Some(name) => {
                        let is_default = match &listing.default_name {
                            Some(d) => *d == *name,
                            None => false,
                        };
                        out.push(
                            AudioDevice {
                                name: name.clone(),
                                is_default,
                                device_type: device_type.to_owned(),
                            },
                        );
                        assert(views_of(out@) =~= views_of(before).push(out@.last()@));
                    },
                    None => {},
                }
                i = i + 1;
            }
            assert(names@.subrange(0, names@.len() as int) =~= names@);
        },
    }
}

/// Builds the device catalog: every input endpoint whose name resolved, then
/// every output endpoint whose name resolved, each marked default when its
/// name equals the default endpoint's name of its direction.
pub fn list_devices(inputs: &EndpointListing, outputs: &EndpointListing) -> (r: Vec<AudioDevice>)
    ensures
        views_of(r@) == listing_entries(*inputs, "input"@) + listing_entries(*outputs, "output"@),
{
    let mut out: Vec<AudioDevice> = Vec::new();
    assert(views_of(out@) =~= Seq::<DeviceView>::empty());
    push_entries(&mut out, inputs, "input");
    push_entries(&mut out, outputs, "output");
    assert(Seq::<DeviceView>::empty() + listing_entries(*inputs, "input"@) =~= listing_entries(
        *inputs,
        "input"@,
    ));
    out
}

} // verus!
