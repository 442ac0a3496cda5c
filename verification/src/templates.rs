//! The jail manager's configuration file, in one call.

use crate::errors::Failure;
use crate::maps::conf_entries;
use crate::settings::JailConfValue;
use crate::template::jail_conf::{all_lines, file, JailConf};
use indexmap::IndexMap;
use vstd::prelude::*;

verus! {

/// The text of the configuration file of the jail `name`.
pub fn render_jail_conf(
    name: &str,
    defaults_map: &IndexMap<String, JailConfValue>,
    conf_map: &IndexMap<String, JailConfValue>,
    extra_conf_map: &IndexMap<String, JailConfValue>,
) -> (r: Result<String, Failure>)
    ensures
        r matches Ok(s) && s@ == file(
            name@,
            all_lines(conf_entries(*defaults_map)),
            all_lines(conf_entries(*conf_map)),
            all_lines(conf_entries(*extra_conf_map)),
        ),
{
    JailConf::new(name, defaults_map, conf_map, extra_conf_map)?.render()
}

} // verus!
