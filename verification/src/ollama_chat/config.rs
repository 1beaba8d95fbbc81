//! Settings of the chat front end.
use vstd::prelude::*;

verus! {

/// Settings of the chat front end.
pub struct AppConfig {
    /// Ollama model identifier to use for chat.
    pub model: String,
    /// Ollama server host, such as `http://localhost`.
    pub host: String,
    /// Ollama server port.
    pub port: u16,
    /// System prompt injected at the start of every conversation.
    pub system_prompt: Option<String>,
    /// Maximum number of messages kept in history; unlimited when absent.
    pub max_history: Option<usize>,
    /// Maximum number of tokens of one response; the model's default when
    /// absent.
    pub max_tokens: Option<usize>,
}

impl Default for AppConfig {
    fn default() -> (res: Self)
        ensures
            res.model@ == "qwen3.5-4b-8k:latest"@,
            res.host@ == "http://localhost"@,
            res.port == 11434,
            res.system_prompt is None,
            res.max_history is None,
            res.max_tokens is None,
    {
        AppConfig {
            model: "qwen3.5-4b-8k:latest".to_owned(),
            host: "http://localhost".to_owned(),
            port: 11434,
            system_prompt: None,
            max_history: None,
            max_tokens: None,
        }
    }
}

impl AppConfig {
    /// The configuration with `AGENTS.md`'s content, when the file exists,
    /// as the system prompt in place of the one of the configuration file.
    pub fn with_system_file(self, system_file: Option<String>) -> (res: Self)
        ensures
            res.model == self.model,
            res.host == self.host,
            res.port == self.port,
            res.max_history == self.max_history,
            res.max_tokens == self.max_tokens,
            res.system_prompt == match system_file {
                Some(p) => Some(p),
                None => self.system_prompt,
            },
    {
        let mut config = self;
        match system_file {
            Some(prompt) => {
                config.system_prompt = Some(prompt);
            },
            None => {},
        }
        config
    }
}

} // verus!
