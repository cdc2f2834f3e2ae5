use vstd::prelude::*;

verus! {

/// The choices a notes request is made with.
#[derive(Clone, Debug)]
pub struct MeetingSettings {
    pub provider_id: String,
    pub model: String,
    pub api_key: String,
    pub system_prompt: String,
    pub template: String,
}

/// The instructions the notes model is given unless the user sets others.
pub open spec fn default_system_prompt_text() -> Seq<char> {
    "You are a professional meeting notes assistant. Based on the transcript of a meeting, generate comprehensive, well-structured notes. Include: key discussion points, decisions made, action items (with owners if mentioned), questions raised, and any next steps. Format with clear headings and bullet points. Be concise but thorough."@
}

/// The notes outline used unless the user sets another.
pub open spec fn default_template_text() -> Seq<char> {
    "# Meeting Notes\n\n## Key Discussion Points\n\n## Decisions Made\n\n## Action Items\n- [ ]\n\n## Questions Raised\n\n## Next Steps\n"@
}

impl MeetingSettings {
    /// The instructions the notes model is given unless the user sets others.
    pub fn default_system_prompt() -> (prompt: String)
        ensures
            prompt@ == default_system_prompt_text(),
    {
        String::from_str("You are a professional meeting notes assistant. Based on the transcript of a meeting, generate comprehensive, well-structured notes. Include: key discussion points, decisions made, action items (with owners if mentioned), questions raised, and any next steps. Format with clear headings and bullet points. Be concise but thorough.")
    }

    /// The notes outline used unless the user sets another.
    pub fn default_template() -> (template: String)
        ensures
            template@ == default_template_text(),
    {
        String::from_str("# Meeting Notes\n\n## Key Discussion Points\n\n## Decisions Made\n\n## Action Items\n- [ ]\n\n## Questions Raised\n\n## Next Steps\n")
    }
}

impl Default for MeetingSettings {
    fn default() -> (s: MeetingSettings)
        ensures
            s.provider_id@ == "openrouter"@,
            s.model@ == "openai/gpt-4o-mini"@,
            s.api_key@ == Seq::<char>::empty(),
            s.system_prompt@ == default_system_prompt_text(),
            s.template@ == default_template_text(),
    {
        MeetingSettings {
            provider_id: String::from_str("openrouter"),
            model: String::from_str("openai/gpt-4o-mini"),
            api_key: String::new(),
            system_prompt: MeetingSettings::default_system_prompt(),
            template: MeetingSettings::default_template(),
        }
    }
}

} // verus!
